//! The packed environment flag word of the `ssbusync` runtime.

use vstd::prelude::*;
use vstd::std_specs::bits::{axiom_u32_trailing_zeros, u32_trailing_zeros};

verus! {

/// Raw environment flag bits of the remote runtime.
#[derive(Debug, Clone, Copy, PartialEq, Eq, Structural)]
pub struct EnvironmentFlags(u32);

impl Default for EnvironmentFlags {
    /// The empty flag word: no bit set.
    fn default() -> (flags: Self)
        ensures
            flags@ == 0,
    {
        EnvironmentFlags(0)
    }
}

impl View for EnvironmentFlags {
    type V = u32;

    closed spec fn view(&self) -> u32 {
        self.0
    }
}

/// The word `bits` with the field `mask` holding `value`: the value is
/// shifted to the lowest set bit of the mask and cut to the mask.
pub open spec fn with_field(bits: u32, mask: u32, value: u32) -> u32 {
    (bits & !mask) | ((value << u32_trailing_zeros(mask)) & mask)
}

/// The value held in the field `mask` of `bits`.
pub open spec fn field_of(bits: u32, mask: u32) -> u32 {
    (bits & mask) >> u32_trailing_zeros(mask)
}

/// `true` when some bit of `mask` is set in `bits`.
pub open spec fn any_set(bits: u32, mask: u32) -> bool {
    bits & mask != 0
}

/// The word `bits` with every bit of `mask` set (`value`) or cleared.
pub open spec fn with_mask(bits: u32, mask: u32, value: bool) -> u32 {
    if value {
        bits | mask
    } else {
        bits & !mask
    }
}

impl EnvironmentFlags {
    pub const SWAPPING_BUFFER: u32 = 1u32 << 0u32;
    pub const SWAPPING_INDEX: u32 = 1u32 << 1u32;
    pub const TRIPLE_ENABLED: u32 = 1u32 << 2u32;
    pub const INDEX_MODE: u32 = 3u32 << 3u32;
    pub const VSYNC_ENABLED: u32 = 1u32 << 5u32;
    pub const RENDER_OPTS_ENABLED: u32 = 1u32 << 6u32;
    pub const PACER_ENABLED: u32 = 1u32 << 7u32;
    pub const PROFILING_ENABLED: u32 = 1u32 << 8u32;
    pub const SLOW_PACER_BIAS: u32 = 1u32 << 9u32;
    pub const OVERCLOCKER: u32 = 1u32 << 10u32;

    /// Wraps raw flag bits.
    pub fn new(bits: u32) -> (flags: Self)
        ensures
            flags@ == bits,
    {
        EnvironmentFlags(bits)
    }

    /// Returns the raw flag bits.
    pub fn bits(self) -> (bits: u32)
        ensures
            bits == self@,
    {
        self.0
    }

    /// Tests whether any bit of `mask` is set.
    pub fn contains(self, mask: u32) -> (set: bool)
        ensures
            set == any_set(self@, mask),
    {
        (self.0 & mask) != 0
    }

    /// Returns a copy of the flags with every bit of `mask` enabled or disabled.
    pub fn with(self, mask: u32, value: bool) -> (flags: Self)
        ensures
            flags@ == with_mask(self@, mask, value),
    {
        if value {
            EnvironmentFlags(self.0 | mask)
        } else {
            EnvironmentFlags(self.0 & !mask)
        }
    }

    /// Returns a copy of the flags with the multi-bit field `mask` set to
    /// `value`. The runtime gives `INDEX_MODE` only as a two-bit mask; storing
    /// the value shifted to the mask's lowest set bit and cut to the mask is
    /// this library's own reading of that layout.
    pub fn with_value(self, mask: u32, value: u32) -> (flags: Self)
        requires
            mask != 0,
        ensures
            flags@ == with_field(self@, mask, value),
    {
        proof {
            axiom_u32_trailing_zeros(mask);
        }
        let shift = mask.trailing_zeros();
        EnvironmentFlags((self.0 & !mask) | ((value << shift) & mask))
    }

    /// Reads the multi-bit field `mask`: the masked bits shifted down to bit
    /// 0, the same layout that `with_value` writes (the runtime documents the
    /// mask only, not this layout).
    pub fn extract_value(self, mask: u32) -> (value: u32)
        requires
            mask != 0,
        ensures
            value == field_of(self@, mask),
    {
        proof {
            axiom_u32_trailing_zeros(mask);
        }
        let shift = mask.trailing_zeros();
        (self.0 & mask) >> shift
    }
}

/// The index-mode field sits at bit 3: writing a value of at most two bits
/// and reading it back gives the value, and the write leaves every other bit
/// unchanged.
pub proof fn lemma_index_field_round_trip(bits: u32, value: u32)
    requires
        value < 4,
    ensures
        field_of(with_field(bits, EnvironmentFlags::INDEX_MODE, value), EnvironmentFlags::INDEX_MODE)
            == value,
        with_field(bits, EnvironmentFlags::INDEX_MODE, value) & !EnvironmentFlags::INDEX_MODE
            == bits & !EnvironmentFlags::INDEX_MODE,
{
    lemma_index_field_shift();
    assert((((bits & !24u32) | ((value << 3u32) & 24u32)) & 24u32) >> 3u32 == value && ((bits
        & !24u32) | ((value << 3u32) & 24u32)) & !24u32 == bits & !24u32) by (bit_vector)
        requires
            value < 4,
    ;
}

/// The index-mode field starts at bit 3.
pub proof fn lemma_index_field_shift()
    ensures
        EnvironmentFlags::INDEX_MODE == 24,
        u32_trailing_zeros(EnvironmentFlags::INDEX_MODE) == 3,
{
    lemma_flag_values();
    axiom_u32_trailing_zeros(24);
    assert((24u32 >> 0u32) & 1u32 == 0u32 && (24u32 >> 1u32) & 1u32 == 0u32 && (24u32 >> 2u32)
        & 1u32 == 0u32 && (24u32 >> 3u32) & 1u32 == 1u32) by (bit_vector);
    let tz = u32_trailing_zeros(24);
    if tz > 3 {
        assert((24u32 >> 3u32) & 1u32 == 0u32);
    }
}

/// Setting or clearing a non-empty mask is observed by `contains`: after
/// `with(mask, value)` the flags contain `mask` exactly when `value` holds.
pub proof fn lemma_with_then_contains(bits: u32, mask: u32, value: bool)
    requires
        mask != 0,
    ensures
        any_set(with_mask(bits, mask, value), mask) == value,
{
    if value {
        assert((bits | mask) & mask != 0) by (bit_vector)
            requires
                mask != 0,
        ;
    } else {
        assert((bits & !mask) & mask == 0) by (bit_vector);
    }
}

/// `with(mask, value)` leaves every bit outside `mask` unchanged.
pub proof fn lemma_with_keeps_other_bits(bits: u32, mask: u32, value: bool)
    ensures
        with_mask(bits, mask, value) & !mask == bits & !mask,
{
    if value {
        assert((bits | mask) & !mask == bits & !mask) by (bit_vector);
    } else {
        assert((bits & !mask) & !mask == bits & !mask) by (bit_vector);
    }
}

/// Two writes of the same mask: the last one wins.
pub proof fn lemma_with_last_write_wins(bits: u32, mask: u32, first: bool, second: bool)
    ensures
        with_mask(with_mask(bits, mask, first), mask, second) == with_mask(bits, mask, second),
{
    assert(((bits | mask) | mask) == bits | mask) by (bit_vector);
    assert(((bits & !mask) | mask) == bits | mask) by (bit_vector);
    assert(((bits | mask) & !mask) == bits & !mask) by (bit_vector);
    assert(((bits & !mask) & !mask) == bits & !mask) by (bit_vector);
}

/// Each named flag has its documented bit position: bits 0 to 2 for the
/// swap and triple-buffer flags, the two-bit index-mode field at bits 3 and 4,
/// and bits 5 to 10 for the remaining switches.
pub proof fn lemma_flag_values()
    ensures
        EnvironmentFlags::SWAPPING_BUFFER == 1,
        EnvironmentFlags::SWAPPING_INDEX == 2,
        EnvironmentFlags::TRIPLE_ENABLED == 4,
        EnvironmentFlags::INDEX_MODE == 24,
        EnvironmentFlags::VSYNC_ENABLED == 32,
        EnvironmentFlags::RENDER_OPTS_ENABLED == 64,
        EnvironmentFlags::PACER_ENABLED == 128,
        EnvironmentFlags::PROFILING_ENABLED == 256,
        EnvironmentFlags::SLOW_PACER_BIAS == 512,
        EnvironmentFlags::OVERCLOCKER == 1024,
{
    assert(1u32 << 0u32 == 1 && 1u32 << 1u32 == 2 && 1u32 << 2u32 == 4 && 3u32 << 3u32 == 24
        && 1u32 << 5u32 == 32 && 1u32 << 6u32 == 64 && 1u32 << 7u32 == 128 && 1u32 << 8u32 == 256
        && 1u32 << 9u32 == 512 && 1u32 << 10u32 == 1024) by (bit_vector);
}

} // verus!
