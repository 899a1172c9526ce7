//! The words and numbers the console shows.

use vstd::prelude::*;
use vstd::string::*;
use crate::flags::{any_set, field_of, EnvironmentFlags};
use crate::flags::lemma_index_field_shift;
use crate::modes::{
    index_mode_of, BufferMode, DockedProfile, IndexMode, NsTuffStatus, OverclockProfile,
};

verus! {

/// The character of a hexadecimal digit, with upper-case letters.
pub open spec fn digit_char(d: nat) -> char {
    if d < 10 {
        (('0' as nat) + d) as char
    } else {
        (('A' as nat) + (d - 10)) as char
    }
}

/// One digit as text.
fn digit_str(d: u32) -> (text: &'static str)
    requires
        d < 16,
    ensures
        text@ == seq![digit_char(d as nat)],
{
    match d {
        0 => {
            proof {
                reveal_strlit("0");
            }
            "0"
        },
        1 => {
            proof {
                reveal_strlit("1");
            }
            "1"
        },
        2 => {
            proof {
                reveal_strlit("2");
            }
            "2"
        },
        3 => {
            proof {
                reveal_strlit("3");
            }
            "3"
        },
        4 => {
            proof {
                reveal_strlit("4");
            }
            "4"
        },
        5 => {
            proof {
                reveal_strlit("5");
            }
            "5"
        },
        6 => {
            proof {
                reveal_strlit("6");
            }
            "6"
        },
        7 => {
            proof {
                reveal_strlit("7");
            }
            "7"
        },
        8 => {
            proof {
                reveal_strlit("8");
            }
            "8"
        },
        9 => {
            proof {
                reveal_strlit("9");
            }
            "9"
        },
        10 => {
            proof {
                reveal_strlit("A");
            }
            "A"
        },
        11 => {
            proof {
                reveal_strlit("B");
            }
            "B"
        },
        12 => {
            proof {
                reveal_strlit("C");
            }
            "C"
        },
        13 => {
            proof {
                reveal_strlit("D");
            }
            "D"
        },
        14 => {
            proof {
                reveal_strlit("E");
            }
            "E"
        },
        15 => {
            proof {
                reveal_strlit("F");
            }
            "F"
        },
        _ => {
            proof {
                reveal_strlit("F");
            }
            "F"
        },
    }
}

/// The decimal digits of `n`, as `to_string` writes them.
pub open spec fn decimal(n: nat) -> Seq<char>
    decreases n,
{
    if n < 10 {
        seq![digit_char(n)]
    } else {
        decimal(n / 10).push(digit_char(n % 10))
    }
}

/// Appends the decimal digits of `n`.
fn append_decimal(out: &mut String, n: u64)
    ensures
        final(out)@ == old(out)@ + decimal(n as nat),
    decreases n,
{
    if n >= 10 {
        append_decimal(out, n / 10);
    }
    out.append(digit_str((n % 10) as u32));
    assert(final(out)@ =~= old(out)@ + decimal(n as nat));
}

/// `n` in decimal.
pub fn decimal_string(n: u64) -> (text: String)
    ensures
        text@ == decimal(n as nat),
{
    let mut text = String::new();
    append_decimal(&mut text, n);
    assert(text@ =~= decimal(n as nat));
    text
}

/// The character of a hexadecimal digit, with lower-case letters.
pub open spec fn lower_digit_char(d: nat) -> char {
    if d < 10 {
        (('0' as nat) + d) as char
    } else {
        (('a' as nat) + (d - 10)) as char
    }
}

/// One lower-case hexadecimal digit as text.
fn lower_digit_str(d: u64) -> (text: &'static str)
    requires
        d < 16,
    ensures
        text@ == seq![lower_digit_char(d as nat)],
{
    if d < 10 {
        let text = digit_str(d as u32);
        text
    } else {
        match d {
            10 => {
                proof {
                    reveal_strlit("a");
                }
                "a"
            },
            11 => {
                proof {
                    reveal_strlit("b");
                }
                "b"
            },
            12 => {
                proof {
                    reveal_strlit("c");
                }
                "c"
            },
            13 => {
                proof {
                    reveal_strlit("d");
                }
                "d"
            },
            14 => {
                proof {
                    reveal_strlit("e");
                }
                "e"
            },
            _ => {
                proof {
                    reveal_strlit("f");
                }
                "f"
            },
        }
    }
}

/// The hexadecimal digits of `n` without leading zeros, upper-case
/// (`{:X}`) or lower-case (`{:x}`).
pub open spec fn hex(n: nat, upper: bool) -> Seq<char>
    decreases n,
{
    let d = if upper {
        digit_char(n % 16)
    } else {
        lower_digit_char(n % 16)
    };
    if n < 16 {
        seq![d]
    } else {
        hex(n / 16, upper).push(d)
    }
}

/// Appends the hexadecimal digits of `n`.
fn append_hex(out: &mut String, n: u64, upper: bool)
    ensures
        final(out)@ == old(out)@ + hex(n as nat, upper),
    decreases n,
{
    if n >= 16 {
        append_hex(out, n / 16, upper);
    }
    if upper {
        out.append(digit_str((n % 16) as u32));
    } else {
        out.append(lower_digit_str(n % 16));
    }
    assert(final(out)@ =~= old(out)@ + hex(n as nat, upper));
}

/// `n` as `0x` and hexadecimal digits without leading zeros.
pub fn prefixed_hex(n: u64, upper: bool) -> (text: String)
    ensures
        text@ == "0x"@ + hex(n as nat, upper),
{
    let mut text = String::from_str("0x");
    append_hex(&mut text, n, upper);
    text
}

/// The eight upper-case hexadecimal digits of `n`, most significant first.
pub open spec fn hex8(n: u32) -> Seq<char> {
    Seq::new(8, |i: int| digit_char(((n >> ((28 - 4 * i) as u32)) & 15u32) as nat))
}

/// `n` as `0x` and eight upper-case hexadecimal digits.
pub fn hex_string(n: u32) -> (text: String)
    ensures
        text@ == "0x"@ + hex8(n),
{
    let mut text = String::from_str("0x");
    let mut i: u32 = 0;
    while i < 8
        invariant
            i <= 8,
            text@ == "0x"@ + hex8(n).take(i as int),
        decreases 8 - i,
    {
        let shift: u32 = 28 - 4 * i;
        let d = (n >> shift) & 15;
        assert(d < 16) by (bit_vector)
            requires
                d == (n >> shift) & 15u32,
        ;
        text.append(digit_str(d));
        i = i + 1;
        assert(text@ =~= "0x"@ + hex8(n).take(i as int));
    }
    assert(hex8(n).take(8) =~= hex8(n));
    text
}

/// `on` or `off`.
pub open spec fn on_off_text(value: bool) -> Seq<char> {
    if value {
        "on"@
    } else {
        "off"@
    }
}

/// `on` or `off`.
pub fn on_off(value: bool) -> (text: &'static str)
    ensures
        text@ == on_off_text(value),
{
    if value {
        "on"
    } else {
        "off"
    }
}

/// A known switch as `on`/`off`, an unknown one as `unknown`.
pub open spec fn option_bool_text(value: Option<bool>) -> Seq<char> {
    match value {
        Some(v) => on_off_text(v),
        None => "unknown"@,
    }
}

/// A known switch as `on`/`off`, an unknown one as `unknown`.
pub fn option_bool(value: Option<bool>) -> (text: &'static str)
    ensures
        text@ == option_bool_text(value),
{
    match value {
        Some(v) => on_off(v),
        None => "unknown",
    }
}

/// The outcome of a remote setter call.
pub open spec fn guest_result_text(result: Option<bool>) -> Seq<char> {
    match result {
        Some(true) => "ok"@,
        Some(false) => "rejected"@,
        None => "symbol unavailable"@,
    }
}

/// The outcome of a remote setter call.
pub fn guest_result(result: Option<bool>) -> (text: &'static str)
    ensures
        text@ == guest_result_text(result),
{
    match result {
        Some(true) => "ok",
        Some(false) => "rejected",
        None => "symbol unavailable",
    }
}

/// The name of a buffer mode.
pub open spec fn buffer_mode_name_text(mode: BufferMode) -> Seq<char> {
    match mode {
        BufferMode::Double => "double"@,
        BufferMode::Triple => "triple"@,
    }
}

/// The name of a buffer mode.
pub fn buffer_mode_name(mode: BufferMode) -> (text: &'static str)
    ensures
        text@ == buffer_mode_name_text(mode),
{
    match mode {
        BufferMode::Double => "double",
        BufferMode::Triple => "triple",
    }
}

/// The name of an index mode.
pub open spec fn index_mode_name_text(mode: IndexMode) -> Seq<char> {
    match mode {
        IndexMode::Immediate => "immediate"@,
        IndexMode::OneBehind => "onebehind"@,
        IndexMode::TwoBehind => "twobehind"@,
    }
}

/// The name of an index mode.
pub fn index_mode_name(mode: IndexMode) -> (text: &'static str)
    ensures
        text@ == index_mode_name_text(mode),
{
    match mode {
        IndexMode::Immediate => "immediate",
        IndexMode::OneBehind => "onebehind",
        IndexMode::TwoBehind => "twobehind",
    }
}

/// The name of an overclock profile.
pub open spec fn overclock_profile_name_text(profile: OverclockProfile) -> Seq<char> {
    match profile {
        OverclockProfile::PerformanceSingles => "singles"@,
        OverclockProfile::PerformanceFfa => "ffa"@,
        OverclockProfile::Rest => "rest"@,
    }
}

/// The name of an overclock profile.
pub fn overclock_profile_name(profile: OverclockProfile) -> (text: &'static str)
    ensures
        text@ == overclock_profile_name_text(profile),
{
    match profile {
        OverclockProfile::PerformanceSingles => "singles",
        OverclockProfile::PerformanceFfa => "ffa",
        OverclockProfile::Rest => "rest",
    }
}

/// A buffer mode's name, or `unknown`.
pub open spec fn option_buffer_mode_text(value: Option<BufferMode>) -> Seq<char> {
    match value {
        Some(v) => buffer_mode_name_text(v),
        None => "unknown"@,
    }
}

/// A buffer mode's name, or `unknown`.
pub fn option_buffer_mode(value: Option<BufferMode>) -> (text: &'static str)
    ensures
        text@ == option_buffer_mode_text(value),
{
    match value {
        Some(v) => buffer_mode_name(v),
        None => "unknown",
    }
}

/// An index mode's name, or `unknown`.
pub open spec fn option_index_mode_text(value: Option<IndexMode>) -> Seq<char> {
    match value {
        Some(v) => index_mode_name_text(v),
        None => "unknown"@,
    }
}

/// An index mode's name, or `unknown`.
pub fn option_index_mode(value: Option<IndexMode>) -> (text: &'static str)
    ensures
        text@ == option_index_mode_text(value),
{
    match value {
        Some(v) => index_mode_name(v),
        None => "unknown",
    }
}

/// An overclock profile's name, or `unknown`.
pub open spec fn option_overclock_profile_text(value: Option<OverclockProfile>) -> Seq<char> {
    match value {
        Some(v) => overclock_profile_name_text(v),
        None => "unknown"@,
    }
}

/// An overclock profile's name, or `unknown`.
pub fn option_overclock_profile(value: Option<OverclockProfile>) -> (text: &'static str)
    ensures
        text@ == option_overclock_profile_text(value),
{
    match value {
        Some(v) => overclock_profile_name(v),
        None => "unknown",
    }
}

/// The name of a docked power slot.
pub open spec fn docked_profile_name_text(profile: DockedProfile) -> Seq<char> {
    match profile {
        DockedProfile::Rest => "rest"@,
        DockedProfile::Singles => "singles"@,
        DockedProfile::Ffa => "ffa"@,
    }
}

/// The name of a docked power slot.
pub fn docked_profile_name(profile: DockedProfile) -> (text: &'static str)
    ensures
        text@ == docked_profile_name_text(profile),
{
    match profile {
        DockedProfile::Rest => "rest",
        DockedProfile::Singles => "singles",
        DockedProfile::Ffa => "ffa",
    }
}

/// A docked power slot's name, or `unknown`.
pub open spec fn option_docked_profile_text(value: Option<DockedProfile>) -> Seq<char> {
    match value {
        Some(v) => docked_profile_name_text(v),
        None => "unknown"@,
    }
}

/// A docked power slot's name, or `unknown`.
pub fn option_docked_profile(value: Option<DockedProfile>) -> (text: &'static str)
    ensures
        text@ == option_docked_profile_text(value),
{
    match value {
        Some(v) => docked_profile_name(v),
        None => "unknown",
    }
}

/// Whether safe overclock profiles are enforced, as a preset name.
pub open spec fn option_overclock_preset_text(value: Option<bool>) -> Seq<char> {
    match value {
        Some(true) => "safe"@,
        Some(false) => "default"@,
        None => "unknown"@,
    }
}

/// Whether safe overclock profiles are enforced, as a preset name.
pub fn option_overclock_preset(value: Option<bool>) -> (text: &'static str)
    ensures
        text@ == option_overclock_preset_text(value),
{
    match value {
        Some(true) => "safe",
        Some(false) => "default",
        None => "unknown",
    }
}

/// Whether known flags have some bit of `mask` set.
pub open spec fn option_flag_text(value: Option<EnvironmentFlags>, mask: u32) -> Seq<char> {
    match value {
        Some(flags) => on_off_text(any_set(flags@, mask)),
        None => "unknown"@,
    }
}

/// Whether known flags have some bit of `mask` set.
pub fn option_flag(value: Option<EnvironmentFlags>, mask: u32) -> (text: &'static str)
    ensures
        text@ == option_flag_text(value, mask),
{
    match value {
        Some(flags) => on_off(flags.contains(mask)),
        None => "unknown",
    }
}

/// The index mode recorded in the index-mode field of known flags.
pub open spec fn option_index_mode_field_text(value: Option<EnvironmentFlags>) -> Seq<char> {
    match value {
        Some(flags) => match index_mode_of(field_of(flags@, EnvironmentFlags::INDEX_MODE)) {
            Some(mode) => index_mode_name_text(mode),
            None => "unknown"@,
        },
        None => "unknown"@,
    }
}

/// The index mode recorded in the index-mode field of known flags.
pub fn option_index_mode_field(value: Option<EnvironmentFlags>) -> (text: &'static str)
    ensures
        text@ == option_index_mode_field_text(value),
{
    match value {
        Some(flags) => {
            proof {
                lemma_index_field_shift();
            }
            match IndexMode::from_u32(flags.extract_value(EnvironmentFlags::INDEX_MODE)) {
                Some(mode) => index_mode_name(mode),
                None => "unknown",
            }
        },
        None => "unknown",
    }
}

/// Whether NsTuff management is enabled.
pub open spec fn option_nstuff_enabled_text(value: Option<NsTuffStatus>) -> Seq<char> {
    match value {
        Some(status) => on_off_text(status.enabled != 0),
        None => "unavailable"@,
    }
}

/// Whether NsTuff management is enabled.
pub fn option_nstuff_enabled(value: Option<NsTuffStatus>) -> (text: &'static str)
    ensures
        text@ == option_nstuff_enabled_text(value),
{
    match value {
        Some(status) => on_off(status.enabled != 0),
        None => "unavailable",
    }
}

/// Whether the running title matches NsTuff's managed title.
pub open spec fn option_nstuff_title_match_text(value: Option<NsTuffStatus>) -> Seq<char> {
    match value {
        Some(status) => on_off_text(status.title_match != 0),
        None => "unknown"@,
    }
}

/// Whether the running title matches NsTuff's managed title.
pub fn option_nstuff_title_match(value: Option<NsTuffStatus>) -> (text: &'static str)
    ensures
        text@ == option_nstuff_title_match_text(value),
{
    match value {
        Some(status) => on_off(status.title_match != 0),
        None => "unknown",
    }
}

/// NsTuff's poll interval in milliseconds.
pub open spec fn option_nstuff_poll_interval_text(value: Option<NsTuffStatus>) -> Seq<char> {
    match value {
        Some(status) => decimal(status.poll_interval_ms as nat),
        None => "unavailable"@,
    }
}

/// NsTuff's poll interval in milliseconds.
pub fn option_nstuff_poll_interval(value: Option<NsTuffStatus>) -> (text: String)
    ensures
        text@ == option_nstuff_poll_interval_text(value),
{
    match value {
        Some(status) => decimal_string(status.poll_interval_ms as u64),
        None => String::from_str("unavailable"),
    }
}

/// NsTuff's power profile.
pub open spec fn option_nstuff_profile_text(value: Option<NsTuffStatus>) -> Seq<char> {
    match value {
        Some(status) => if status.profile == 0 {
            "handheld"@
        } else if status.profile == 1 {
            "charging-usb"@
        } else if status.profile == 2 {
            "charging-official"@
        } else if status.profile == 3 {
            "docked"@
        } else {
            "unknown"@
        },
        None => "unavailable"@,
    }
}

/// NsTuff's power profile.
pub fn option_nstuff_profile(value: Option<NsTuffStatus>) -> (text: &'static str)
    ensures
        text@ == option_nstuff_profile_text(value),
{
    match value {
        Some(status) => match status.profile {
            0 => "handheld",
            1 => "charging-usb",
            2 => "charging-official",
            3 => "docked",
            _ => "unknown",
        },
        None => "unavailable",
    }
}

/// Whether undervolting is enabled.
pub open spec fn option_uv_enabled_text(value: Option<NsTuffStatus>) -> Seq<char> {
    match value {
        Some(status) => on_off_text(status.undervolt_enabled != 0),
        None => "unavailable"@,
    }
}

/// Whether undervolting is enabled.
pub fn option_uv_enabled(value: Option<NsTuffStatus>) -> (text: &'static str)
    ensures
        text@ == option_uv_enabled_text(value),
{
    match value {
        Some(status) => on_off(status.undervolt_enabled != 0),
        None => "unavailable",
    }
}

/// The undervolt state: disabled, active, or restored to stock.
pub open spec fn option_uv_state_text(value: Option<NsTuffStatus>) -> Seq<char> {
    match value {
        Some(status) => if status.undervolt_enabled == 0 {
            "disabled"@
        } else if status.undervolt_active != 0 {
            "active"@
        } else {
            "restored"@
        },
        None => "unavailable"@,
    }
}

/// The undervolt state: disabled, active, or restored to stock.
pub fn option_uv_state(value: Option<NsTuffStatus>) -> (text: &'static str)
    ensures
        text@ == option_uv_state_text(value),
{
    match value {
        Some(status) => if status.undervolt_enabled == 0 {
            "disabled"
        } else if status.undervolt_active != 0 {
            "active"
        } else {
            "restored"
        },
        None => "unavailable",
    }
}

/// The undervolt CPU mode number.
pub open spec fn option_uv_cpu_mode_text(value: Option<NsTuffStatus>) -> Seq<char> {
    match value {
        Some(status) => decimal(status.undervolt_cpu_mode as nat),
        None => "unavailable"@,
    }
}

/// The undervolt CPU mode number.
pub fn option_uv_cpu_mode(value: Option<NsTuffStatus>) -> (text: String)
    ensures
        text@ == option_uv_cpu_mode_text(value),
{
    match value {
        Some(status) => decimal_string(status.undervolt_cpu_mode as u64),
        None => String::from_str("unavailable"),
    }
}

/// The GPU undervolt in millivolts.
pub open spec fn option_uv_gpu_mv_text(value: Option<NsTuffStatus>) -> Seq<char> {
    match value {
        Some(status) => decimal(status.undervolt_gpu_mv as nat),
        None => "unavailable"@,
    }
}

/// The GPU undervolt in millivolts.
pub fn option_uv_gpu_mv(value: Option<NsTuffStatus>) -> (text: String)
    ensures
        text@ == option_uv_gpu_mv_text(value),
{
    match value {
        Some(status) => decimal_string(status.undervolt_gpu_mv as u64),
        None => String::from_str("unavailable"),
    }
}

} // verus!
