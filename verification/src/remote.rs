//! The `ssbusync` symbol table and the requests sent across it.
//!
//! Each request names the exported entry point to look up and the arguments
//! to pass; each `finish` decodes the raw reply, where `None` stands for an
//! entry point that could not be resolved.

use vstd::prelude::*;
use crate::flags::EnvironmentFlags;
use crate::modes::{
    buffer_mode_of, index_mode_of, overclock_profile_of, BufferMode, IndexMode, NsTuffStatus,
    OverclockProfile, SsbuSyncConfig,
};

verus! {

/// An entry point exported by the remote `ssbusync` plugin.
#[derive(Debug, Clone, Copy, PartialEq, Eq, Structural)]
pub enum Entry {
    Status,
    EnvGetFlags,
    EnvReplaceFlags,
    EnvSetFlag,
    SetVsyncEnabled,
    GetVsyncEnabled,
    SetRenderOptsEnabled,
    GetRenderOptsEnabled,
    SetPacerEnabled,
    GetPacerEnabled,
    GetTripleBufferEnabled,
    SetBufferMode,
    GetBufferMode,
    SetIndexMode,
    GetIndexMode,
    Install,
    SetOverclockProfile,
    CurrentOverclockProfile,
    OverclockUsesSafeProfiles,
    GetNstuffStatus,
    /// Registration of the FPS-boost change callback. Its symbol name is not
    /// among the runtime's listed symbol constants; it follows the naming of
    /// the other registration entry points.
    SetFpsBoostChangedCallback,
    SetVsyncChangedCallback,
    SetRenderOptsChangedCallback,
    SetBufferModeChangedCallback,
    SetIndexModeChangedCallback,
}

/// The NUL-terminated symbol name under which `entry` is exported.
pub open spec fn entry_symbol(entry: Entry) -> Seq<char> {
    match entry {
        Entry::Status => "ssbusync_status\0"@,
        Entry::EnvGetFlags => "ssbusync_env_get_flags\0"@,
        Entry::EnvReplaceFlags => "ssbusync_env_replace_flags\0"@,
        Entry::EnvSetFlag => "ssbusync_env_set_flag\0"@,
        Entry::SetVsyncEnabled => "ssbusync_set_vsync_enabled\0"@,
        Entry::GetVsyncEnabled => "ssbusync_get_vsync_enabled\0"@,
        Entry::SetRenderOptsEnabled => "ssbusync_set_render_opts_enabled\0"@,
        Entry::GetRenderOptsEnabled => "ssbusync_get_render_opts_enabled\0"@,
        Entry::SetPacerEnabled => "ssbusync_set_pacer_enabled\0"@,
        Entry::GetPacerEnabled => "ssbusync_get_pacer_enabled\0"@,
        Entry::GetTripleBufferEnabled => "ssbusync_get_triple_buffer_enabled\0"@,
        Entry::SetBufferMode => "ssbusync_set_buffer_mode\0"@,
        Entry::GetBufferMode => "ssbusync_get_buffer_mode\0"@,
        Entry::SetIndexMode => "ssbusync_set_index_mode\0"@,
        Entry::GetIndexMode => "ssbusync_get_index_mode\0"@,
        Entry::Install => "ssbusync_install\0"@,
        Entry::SetOverclockProfile => "ssbusync_set_overclock_profile\0"@,
        Entry::CurrentOverclockProfile => "ssbusync_current_overclock_profile\0"@,
        Entry::OverclockUsesSafeProfiles => "ssbusync_overclock_uses_safe_profiles\0"@,
        Entry::GetNstuffStatus => "ssbusync_get_nstuff_status\0"@,
        Entry::SetFpsBoostChangedCallback => "ssbusync_set_fps_boost_changed_callback\0"@,
        Entry::SetVsyncChangedCallback => "ssbusync_set_vsync_changed_callback\0"@,
        Entry::SetRenderOptsChangedCallback => "ssbusync_set_render_opts_changed_callback\0"@,
        Entry::SetBufferModeChangedCallback => "ssbusync_set_buffer_mode_changed_callback\0"@,
        Entry::SetIndexModeChangedCallback => "ssbusync_set_index_mode_changed_callback\0"@,
    }
}

impl Entry {
    /// The NUL-terminated symbol name under which this entry is exported.
    pub fn symbol(self) -> (name: &'static str)
        ensures
            name@ == entry_symbol(self),
    {
        match self {
            Entry::Status => "ssbusync_status\0",
            Entry::EnvGetFlags => "ssbusync_env_get_flags\0",
            Entry::EnvReplaceFlags => "ssbusync_env_replace_flags\0",
            Entry::EnvSetFlag => "ssbusync_env_set_flag\0",
            Entry::SetVsyncEnabled => "ssbusync_set_vsync_enabled\0",
            Entry::GetVsyncEnabled => "ssbusync_get_vsync_enabled\0",
            Entry::SetRenderOptsEnabled => "ssbusync_set_render_opts_enabled\0",
            Entry::GetRenderOptsEnabled => "ssbusync_get_render_opts_enabled\0",
            Entry::SetPacerEnabled => "ssbusync_set_pacer_enabled\0",
            Entry::GetPacerEnabled => "ssbusync_get_pacer_enabled\0",
            Entry::GetTripleBufferEnabled => "ssbusync_get_triple_buffer_enabled\0",
            Entry::SetBufferMode => "ssbusync_set_buffer_mode\0",
            Entry::GetBufferMode => "ssbusync_get_buffer_mode\0",
            Entry::SetIndexMode => "ssbusync_set_index_mode\0",
            Entry::GetIndexMode => "ssbusync_get_index_mode\0",
            Entry::Install => "ssbusync_install\0",
            Entry::SetOverclockProfile => "ssbusync_set_overclock_profile\0",
            Entry::CurrentOverclockProfile => "ssbusync_current_overclock_profile\0",
            Entry::OverclockUsesSafeProfiles => "ssbusync_overclock_uses_safe_profiles\0",
            Entry::GetNstuffStatus => "ssbusync_get_nstuff_status\0",
            Entry::SetFpsBoostChangedCallback => "ssbusync_set_fps_boost_changed_callback\0",
            Entry::SetVsyncChangedCallback => "ssbusync_set_vsync_changed_callback\0",
            Entry::SetRenderOptsChangedCallback => "ssbusync_set_render_opts_changed_callback\0",
            Entry::SetBufferModeChangedCallback => "ssbusync_set_buffer_mode_changed_callback\0",
            Entry::SetIndexModeChangedCallback => "ssbusync_set_index_mode_changed_callback\0",
        }
    }
}

/// The outcome of a symbol lookup: an address when the lookup reported
/// success (`0`) and produced a non-null address.
pub open spec fn resolved_address(result: u32, address: usize) -> Option<usize> {
    if result == 0 && address != 0 {
        Some(address)
    } else {
        None
    }
}

/// Interprets the result code and output address of a symbol lookup.
pub fn symbol_address(result: u32, address: usize) -> (found: Option<usize>)
    ensures
        found == resolved_address(result, address),
{
    if result == 0 && address != 0 {
        Some(address)
    } else {
        None
    }
}

/// The wire value of a boolean argument.
pub open spec fn bool_value(value: bool) -> u32 {
    if value {
        1
    } else {
        0
    }
}

/// A call to an entry point that returns a `u32`.
#[derive(Debug, Clone, Copy, PartialEq, Eq, Structural)]
pub enum RemoteCall {
    /// `extern "C" fn() -> u32`
    Read(Entry),
    /// `extern "C" fn(u32) -> u32`
    Write(Entry, u32),
    /// `extern "C" fn(u32, u32) -> u32`
    WriteTwo(Entry, u32, u32),
}

/// A reply read as a boolean: non-zero means `true`.
pub open spec fn flag_reply(reply: Option<u32>) -> Option<bool> {
    match reply {
        Some(value) => Some(value != 0),
        None => None,
    }
}

/// A reply read as a buffer mode; the inner `None` is an unknown value.
pub open spec fn buffer_mode_reply(reply: Option<u32>) -> Option<Option<BufferMode>> {
    match reply {
        Some(value) => Some(buffer_mode_of(value)),
        None => None,
    }
}

/// A reply read as an index mode; the inner `None` is an unknown value.
pub open spec fn index_mode_reply(reply: Option<u32>) -> Option<Option<IndexMode>> {
    match reply {
        Some(value) => Some(index_mode_of(value)),
        None => None,
    }
}

/// A reply read as an overclock profile; the inner `None` is an unknown value.
pub open spec fn overclock_profile_reply(reply: Option<u32>) -> Option<Option<OverclockProfile>> {
    match reply {
        Some(value) => Some(overclock_profile_of(value)),
        None => None,
    }
}

/// A request whose reply is a boolean.
#[derive(Debug, Clone, Copy, PartialEq, Eq, Structural)]
pub struct FlagRequest {
    pub call: RemoteCall,
}

impl FlagRequest {
    /// Decodes the reply: `None` when the entry point was unavailable,
    /// otherwise whether the returned value is non-zero.
    pub fn finish(self, reply: Option<u32>) -> (result: Option<bool>)
        ensures
            result == flag_reply(reply),
    {
        match reply {
            Some(value) => Some(value != 0),
            None => None,
        }
    }
}

/// A request whose reply is an environment flag word.
#[derive(Debug, Clone, Copy, PartialEq, Eq, Structural)]
pub struct FlagsRequest {
    pub call: RemoteCall,
}

impl FlagsRequest {
    /// Decodes the reply into environment flags.
    pub fn finish(self, reply: Option<u32>) -> (result: Option<EnvironmentFlags>)
        ensures
            result is Some <==> reply is Some,
            result matches Some(flags) ==> flags@ == reply->0,
    {
        match reply {
            Some(value) => Some(EnvironmentFlags::new(value)),
            None => None,
        }
    }
}

/// A request whose reply is a raw status word.
#[derive(Debug, Clone, Copy, PartialEq, Eq, Structural)]
pub struct StatusRequest {
    pub call: RemoteCall,
}

impl StatusRequest {
    /// The reply is the status word itself.
    pub fn finish(self, reply: Option<u32>) -> (result: Option<u32>)
        ensures
            result == reply,
    {
        reply
    }
}

/// A request whose reply is a buffer mode.
#[derive(Debug, Clone, Copy, PartialEq, Eq, Structural)]
pub struct BufferModeRequest {
    pub call: RemoteCall,
}

impl BufferModeRequest {
    /// Decodes the reply into a buffer mode.
    pub fn finish(self, reply: Option<u32>) -> (result: Option<Option<BufferMode>>)
        ensures
            result == buffer_mode_reply(reply),
    {
        match reply {
            Some(value) => Some(BufferMode::from_u32(value)),
            None => None,
        }
    }
}

/// A request whose reply is an index mode.
#[derive(Debug, Clone, Copy, PartialEq, Eq, Structural)]
pub struct IndexModeRequest {
    pub call: RemoteCall,
}

impl IndexModeRequest {
    /// Decodes the reply into an index mode.
    pub fn finish(self, reply: Option<u32>) -> (result: Option<Option<IndexMode>>)
        ensures
            result == index_mode_reply(reply),
    {
        match reply {
            Some(value) => Some(IndexMode::from_u32(value)),
            None => None,
        }
    }
}

/// A request whose reply is an overclock profile.
#[derive(Debug, Clone, Copy, PartialEq, Eq, Structural)]
pub struct OverclockProfileRequest {
    pub call: RemoteCall,
}

impl OverclockProfileRequest {
    /// Decodes the reply into an overclock profile.
    pub fn finish(self, reply: Option<u32>) -> (result: Option<Option<OverclockProfile>>)
        ensures
            result == overclock_profile_reply(reply),
    {
        match reply {
            Some(value) => Some(OverclockProfile::from_u32(value)),
            None => None,
        }
    }
}

/// A request to look an entry point up without calling it.
#[derive(Debug, Clone, Copy, PartialEq, Eq, Structural)]
pub struct LookupRequest {
    pub entry: Entry,
}

impl LookupRequest {
    /// The entry point is present when the lookup produced an address.
    pub fn finish(self, address: Option<usize>) -> (present: bool)
        ensures
            present == address is Some,
    {
        address.is_some()
    }
}

/// A call of the install entry point, `extern "C" fn(SsbuSyncConfig)`, which
/// returns nothing.
#[derive(Debug, Clone, Copy, PartialEq, Eq, Structural)]
pub struct InstallRequest {
    pub entry: Entry,
    pub config: SsbuSyncConfig,
}

/// A call of an entry point that fills a caller-owned status block,
/// `extern "C" fn(*mut NsTuffStatus) -> u32`; the block starts out as the
/// all-zero default.
#[derive(Debug, Clone, Copy, PartialEq, Eq, Structural)]
pub struct StatusBlockRequest {
    pub entry: Entry,
}

impl StatusBlockRequest {
    /// Decodes the reply: the returned code and the block as the remote left
    /// it. The block is kept when the code is non-zero.
    pub fn finish(self, reply: Option<(u32, NsTuffStatus)>) -> (result: Option<NsTuffStatus>)
        ensures
            result == (match reply {
                Some((code, block)) => if code != 0 {
                    Some(block)
                } else {
                    None
                },
                None => None,
            }),
    {
        match reply {
            Some((code, block)) => if code != 0 {
                Some(block)
            } else {
                None
            },
            None => None,
        }
    }
}

/// What a callback registration hands to the remote runtime.
#[derive(Debug, Clone, Copy, PartialEq, Eq, Structural)]
pub enum Handler<F> {
    /// No callback: unregisters the current one.
    Clear,
    /// The caller's raw `u32` callback.
    Raw(F),
    /// The library's decoding trampoline for the event, which forwards to
    /// the typed callback held in the event's slot.
    Typed,
}

/// A call of a callback registration entry point,
/// `extern "C" fn(Option<StateCallback>) -> u32`.
#[derive(Debug, Clone, Copy, PartialEq, Eq, Structural)]
pub struct RegisterRequest<F> {
    pub entry: Entry,
    pub handler: Handler<F>,
}

impl<F> RegisterRequest<F> {
    /// Decodes the reply: whether the remote runtime accepted the handler.
    pub fn finish(self, reply: Option<u32>) -> (result: Option<bool>)
        ensures
            result == flag_reply(reply),
    {
        match reply {
            Some(value) => Some(value != 0),
            None => None,
        }
    }
}

} // verus!
