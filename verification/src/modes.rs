//! The typed values exchanged with the remote runtime: buffer-ring mode,
//! frame-index policy, overclock profile, the install configuration and the
//! NsTuff status block.

use vstd::prelude::*;

verus! {

/// Remote buffer-ring mode.
#[derive(Debug, Clone, Copy, PartialEq, Eq, Structural)]
pub enum BufferMode {
    Double,
    Triple,
}

/// Remote frame-index policy.
#[derive(Debug, Clone, Copy, PartialEq, Eq, Structural)]
pub enum IndexMode {
    Immediate,
    OneBehind,
    TwoBehind,
}

/// Remote overclock profile.
#[derive(Debug, Clone, Copy, PartialEq, Eq, Structural)]
pub enum OverclockProfile {
    PerformanceSingles,
    PerformanceFfa,
    Rest,
}

/// The wire value of a buffer mode: its number of ring buffers.
pub open spec fn buffer_mode_value(mode: BufferMode) -> u32 {
    match mode {
        BufferMode::Double => 2,
        BufferMode::Triple => 3,
    }
}

/// The buffer mode that a wire value names, if any.
pub open spec fn buffer_mode_of(value: u32) -> Option<BufferMode> {
    if value == 2 {
        Some(BufferMode::Double)
    } else if value == 3 {
        Some(BufferMode::Triple)
    } else {
        None
    }
}

/// The wire value of an index mode: how many frames behind it runs.
pub open spec fn index_mode_value(mode: IndexMode) -> u32 {
    match mode {
        IndexMode::Immediate => 0,
        IndexMode::OneBehind => 1,
        IndexMode::TwoBehind => 2,
    }
}

/// The index mode that a wire value names, if any.
pub open spec fn index_mode_of(value: u32) -> Option<IndexMode> {
    if value == 0 {
        Some(IndexMode::Immediate)
    } else if value == 1 {
        Some(IndexMode::OneBehind)
    } else if value == 2 {
        Some(IndexMode::TwoBehind)
    } else {
        None
    }
}

/// The wire value of an overclock profile.
pub open spec fn overclock_profile_value(profile: OverclockProfile) -> u32 {
    match profile {
        OverclockProfile::PerformanceSingles => 1,
        OverclockProfile::PerformanceFfa => 2,
        OverclockProfile::Rest => 3,
    }
}

/// The overclock profile that a wire value names, if any; `0` is read as
/// `PerformanceSingles`.
pub open spec fn overclock_profile_of(value: u32) -> Option<OverclockProfile> {
    if value == 0 || value == 1 {
        Some(OverclockProfile::PerformanceSingles)
    } else if value == 2 {
        Some(OverclockProfile::PerformanceFfa)
    } else if value == 3 {
        Some(OverclockProfile::Rest)
    } else {
        None
    }
}

impl BufferMode {
    /// Converts the raw remote value into a typed `BufferMode`.
    pub fn from_u32(value: u32) -> (mode: Option<Self>)
        ensures
            mode == buffer_mode_of(value),
    {
        match value {
            2 => Some(BufferMode::Double),
            3 => Some(BufferMode::Triple),
            _ => None,
        }
    }

    /// The raw value sent to the remote runtime for this mode.
    pub fn to_u32(self) -> (value: u32)
        ensures
            value == buffer_mode_value(self),
    {
        match self {
            BufferMode::Double => 2,
            BufferMode::Triple => 3,
        }
    }
}

impl IndexMode {
    /// Converts the raw remote value into a typed `IndexMode`.
    pub fn from_u32(value: u32) -> (mode: Option<Self>)
        ensures
            mode == index_mode_of(value),
    {
        match value {
            0 => Some(IndexMode::Immediate),
            1 => Some(IndexMode::OneBehind),
            2 => Some(IndexMode::TwoBehind),
            _ => None,
        }
    }

    /// The raw value sent to the remote runtime for this mode.
    pub fn to_u32(self) -> (value: u32)
        ensures
            value == index_mode_value(self),
    {
        match self {
            IndexMode::Immediate => 0,
            IndexMode::OneBehind => 1,
            IndexMode::TwoBehind => 2,
        }
    }
}

impl OverclockProfile {
    /// Converts the raw remote value into a typed `OverclockProfile`;
    /// `0` is treated as `PerformanceSingles`.
    pub fn from_u32(value: u32) -> (profile: Option<Self>)
        ensures
            profile == overclock_profile_of(value),
    {
        match value {
            0 | 1 => Some(OverclockProfile::PerformanceSingles),
            2 => Some(OverclockProfile::PerformanceFfa),
            3 => Some(OverclockProfile::Rest),
            _ => None,
        }
    }

    /// The raw value sent to the remote runtime for this profile.
    pub fn to_u32(self) -> (value: u32)
        ensures
            value == overclock_profile_value(self),
    {
        match self {
            OverclockProfile::PerformanceSingles => 1,
            OverclockProfile::PerformanceFfa => 2,
            OverclockProfile::Rest => 3,
        }
    }
}

/// Decoding the wire value of a buffer mode gives the mode back, and a
/// decoded value is the wire value of the mode it names.
pub proof fn lemma_buffer_mode_round_trip(mode: BufferMode, value: u32)
    ensures
        buffer_mode_of(buffer_mode_value(mode)) == Some(mode),
        buffer_mode_of(value) == Some(mode) ==> buffer_mode_value(mode) == value,
{
}

/// Decoding the wire value of an index mode gives the mode back, and a
/// decoded value is the wire value of the mode it names.
pub proof fn lemma_index_mode_round_trip(mode: IndexMode, value: u32)
    ensures
        index_mode_of(index_mode_value(mode)) == Some(mode),
        index_mode_of(value) == Some(mode) ==> index_mode_value(mode) == value,
{
}

/// Decoding the wire value of an overclock profile gives the profile back;
/// every non-zero value that decodes is the wire value of its profile
/// (`0` is the one extra alias, of `PerformanceSingles`).
pub proof fn lemma_overclock_profile_round_trip(profile: OverclockProfile, value: u32)
    ensures
        overclock_profile_of(overclock_profile_value(profile)) == Some(profile),
        value != 0 && overclock_profile_of(value) == Some(profile) ==> overclock_profile_value(
            profile,
        ) == value,
        overclock_profile_of(0) == Some(OverclockProfile::PerformanceSingles),
{
}

/// The docked power slot that an overclock profile is mapped to.
#[derive(Debug, Clone, Copy, PartialEq, Eq, Structural)]
pub enum DockedProfile {
    Rest,
    Singles,
    Ffa,
}

/// Configuration handed to the remote runtime on install.
#[derive(Debug, Clone, Copy, PartialEq, Eq, Structural)]
pub struct SsbuSyncConfig {
    pub enable_vsync: bool,
    pub enable_render_opts: bool,
    pub enabled_pacer: bool,
    pub slow_pacer_bias: bool,
    pub enable_triple_buffer: bool,
    pub index_mode: IndexMode,
    pub profiling: bool,
    pub overclocker: bool,
}

/// Status block of the NsTuff clock and voltage manager, as reported by the
/// remote runtime.
#[derive(Debug, Clone, Copy, Default, PartialEq, Eq, Structural)]
pub struct NsTuffStatus {
    pub api_version: u32,
    pub enabled: u8,
    pub has_runtime_plan: u8,
    pub require_managed_title: u8,
    pub title_match: u8,
    pub undervolt_enabled: u8,
    pub undervolt_active: u8,
    pub undervolt_cpu_mode: u8,
    pub _reserved0: u8,
    pub profile: u32,
    pub poll_interval_ms: u32,
    pub applied_cpu_hz: u32,
    pub applied_gpu_hz: u32,
    pub applied_mem_hz: u32,
    pub undervolt_cpu_vmin_mv: u32,
    pub undervolt_cpu_limit_mv: u32,
    pub undervolt_gpu_mv: u32,
}

} // verus!
