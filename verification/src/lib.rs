//! Verified control library for the `ssbusync` render-loop runtime.
//!
//! The library describes every request that a plugin sends across the
//! `ssbusync` symbol boundary and decodes every reply, keeps the callback slots
//! and registries, and holds the state machine of the in-game debug console.
//! Looking symbols up and calling them is left to the caller, which hands each
//! request's raw reply back to its `finish`.

pub mod callback;
pub mod console;
pub mod events;
pub mod flags;
pub mod modes;
pub mod remote;

use vstd::prelude::*;

pub use flags::EnvironmentFlags;
pub use modes::{
    BufferMode, DockedProfile, IndexMode, NsTuffStatus, OverclockProfile, SsbuSyncConfig,
};
use modes::{buffer_mode_value, index_mode_value, overclock_profile_value};
use remote::{
    bool_value, BufferModeRequest, Entry, FlagRequest, FlagsRequest, Handler, IndexModeRequest,
    InstallRequest, LookupRequest, OverclockProfileRequest, RegisterRequest, RemoteCall,
    StatusBlockRequest, StatusRequest,
};

verus! {

/// The wire value of a boolean argument: `1` for `true`, `0` for `false`.
fn wire_bool(value: bool) -> (wire: u32)
    ensures
        wire == bool_value(value),
{
    if value {
        1
    } else {
        0
    }
}

/// Reports whether the remote `ssbusync` symbol table is available, by looking
/// up its status entry point. This can vary with plugin load order.
pub fn remote_present() -> (request: LookupRequest)
    ensures
        request.entry == Entry::Status,
{
    LookupRequest { entry: Entry::Status }
}

/// Reads the remote `ssbusync` status word.
pub fn status() -> (request: StatusRequest)
    ensures
        request.call == RemoteCall::Read(Entry::Status),
{
    StatusRequest { call: RemoteCall::Read(Entry::Status) }
}

/// Asks the remote plugin to install and initialize with `config`; the
/// caller learns only whether the entry point was available.
pub fn install(config: SsbuSyncConfig) -> (request: InstallRequest)
    ensures
        request.entry == Entry::Install,
        request.config == config,
{
    InstallRequest { entry: Entry::Install, config }
}

/// Fetches the current environment flags.
pub fn env_flags() -> (request: FlagsRequest)
    ensures
        request.call == RemoteCall::Read(Entry::EnvGetFlags),
{
    FlagsRequest { call: RemoteCall::Read(Entry::EnvGetFlags) }
}

/// Replaces the whole environment flag word; the reply is the flag word that
/// the remote reports back.
pub fn replace_env_flags(flags: EnvironmentFlags) -> (request: FlagsRequest)
    ensures
        request.call == RemoteCall::Write(Entry::EnvReplaceFlags, flags@),
{
    FlagsRequest { call: RemoteCall::Write(Entry::EnvReplaceFlags, flags.bits()) }
}

/// Sets or clears the bits of `mask` in the remote flag word; the reply is
/// the updated flag word.
pub fn set_env_flag(mask: u32, enabled: bool) -> (request: FlagsRequest)
    ensures
        request.call == RemoteCall::WriteTwo(Entry::EnvSetFlag, mask, bool_value(enabled)),
{
    FlagsRequest { call: RemoteCall::WriteTwo(Entry::EnvSetFlag, mask, wire_bool(enabled)) }
}

/// Enables or disables vsync in the remote runtime.
pub fn set_vsync_enabled(enabled: bool) -> (request: FlagRequest)
    ensures
        request.call == RemoteCall::Write(Entry::SetVsyncEnabled, bool_value(enabled)),
{
    FlagRequest { call: RemoteCall::Write(Entry::SetVsyncEnabled, wire_bool(enabled)) }
}

/// Reads whether vsync is enabled in the remote runtime.
pub fn vsync_enabled() -> (request: FlagRequest)
    ensures
        request.call == RemoteCall::Read(Entry::GetVsyncEnabled),
{
    FlagRequest { call: RemoteCall::Read(Entry::GetVsyncEnabled) }
}

/// Enables or disables the render and input-polling optimizations in the remote runtime.
pub fn set_render_opts_enabled(enabled: bool) -> (request: FlagRequest)
    ensures
        request.call == RemoteCall::Write(Entry::SetRenderOptsEnabled, bool_value(enabled)),
{
    FlagRequest { call: RemoteCall::Write(Entry::SetRenderOptsEnabled, wire_bool(enabled)) }
}

/// Reads whether the render optimizations are enabled in the remote runtime.
pub fn render_opts_enabled() -> (request: FlagRequest)
    ensures
        request.call == RemoteCall::Read(Entry::GetRenderOptsEnabled),
{
    FlagRequest { call: RemoteCall::Read(Entry::GetRenderOptsEnabled) }
}

/// Enables or disables the frame pacer in the remote runtime.
pub fn set_pacer_enabled(enabled: bool) -> (request: FlagRequest)
    ensures
        request.call == RemoteCall::Write(Entry::SetPacerEnabled, bool_value(enabled)),
{
    FlagRequest { call: RemoteCall::Write(Entry::SetPacerEnabled, wire_bool(enabled)) }
}

/// Reads whether the frame pacer is enabled in the remote runtime.
pub fn pacer_enabled() -> (request: FlagRequest)
    ensures
        request.call == RemoteCall::Read(Entry::GetPacerEnabled),
{
    FlagRequest { call: RemoteCall::Read(Entry::GetPacerEnabled) }
}

/// Switches the live buffer ring between triple (`true`) and double (`false`)
/// buffering: the same request as `set_buffer_mode(BufferMode::Triple)` or
/// `set_buffer_mode(BufferMode::Double)`.
pub fn set_triple_buffer_enabled(enabled: bool) -> (request: FlagRequest)
    ensures
        request.call == RemoteCall::Write(
            Entry::SetBufferMode,
            buffer_mode_value(
                if enabled {
                    BufferMode::Triple
                } else {
                    BufferMode::Double
                },
            ),
        ),
{
    let mode = if enabled {
        BufferMode::Triple
    } else {
        BufferMode::Double
    };
    set_buffer_mode(mode)
}

/// Reads whether triple buffering is enabled in the remote runtime.
pub fn triple_buffer_enabled() -> (request: FlagRequest)
    ensures
        request.call == RemoteCall::Read(Entry::GetTripleBufferEnabled),
{
    FlagRequest { call: RemoteCall::Read(Entry::GetTripleBufferEnabled) }
}

/// Requests a live buffer-ring transition to double or triple buffering.
pub fn set_buffer_mode(mode: BufferMode) -> (request: FlagRequest)
    ensures
        request.call == RemoteCall::Write(Entry::SetBufferMode, buffer_mode_value(mode)),
{
    FlagRequest { call: RemoteCall::Write(Entry::SetBufferMode, mode.to_u32()) }
}

/// Reads the current remote buffer mode.
pub fn buffer_mode() -> (request: BufferModeRequest)
    ensures
        request.call == RemoteCall::Read(Entry::GetBufferMode),
{
    BufferModeRequest { call: RemoteCall::Read(Entry::GetBufferMode) }
}

/// Overrides the frame-index policy; it does not by itself change the
/// buffer ring.
pub fn set_index_mode(mode: IndexMode) -> (request: FlagRequest)
    ensures
        request.call == RemoteCall::Write(Entry::SetIndexMode, index_mode_value(mode)),
{
    FlagRequest { call: RemoteCall::Write(Entry::SetIndexMode, mode.to_u32()) }
}

/// Reads the current remote index mode.
pub fn index_mode() -> (request: IndexModeRequest)
    ensures
        request.call == RemoteCall::Read(Entry::GetIndexMode),
{
    IndexModeRequest { call: RemoteCall::Read(Entry::GetIndexMode) }
}

/// Requests a specific remote overclock profile.
pub fn set_overclock_profile(profile: OverclockProfile) -> (request: FlagRequest)
    ensures
        request.call == RemoteCall::Write(
            Entry::SetOverclockProfile,
            overclock_profile_value(profile),
        ),
{
    FlagRequest { call: RemoteCall::Write(Entry::SetOverclockProfile, profile.to_u32()) }
}

/// Reads the selected overclock profile; the inner `None` is an unknown
/// profile value.
pub fn current_overclock_profile() -> (request: OverclockProfileRequest)
    ensures
        request.call == RemoteCall::Read(Entry::CurrentOverclockProfile),
{
    OverclockProfileRequest { call: RemoteCall::Read(Entry::CurrentOverclockProfile) }
}

/// Reads whether the remote runtime is constrained to safe overclock profiles.
pub fn overclock_uses_safe_profiles() -> (request: FlagRequest)
    ensures
        request.call == RemoteCall::Read(Entry::OverclockUsesSafeProfiles),
{
    FlagRequest { call: RemoteCall::Read(Entry::OverclockUsesSafeProfiles) }
}

/// Fetches the NsTuff status block.
pub fn current_nstuff_status() -> (request: StatusBlockRequest)
    ensures
        request.entry == Entry::GetNstuffStatus,
{
    StatusBlockRequest { entry: Entry::GetNstuffStatus }
}

/// Registers a raw `u32` callback for remote FPS-boost change notifications; `None`
/// unregisters the current one.
pub fn set_fps_boost_changed_callback<F>(callback: Option<F>) -> (request: RegisterRequest<F>)
    ensures
        request.entry == Entry::SetFpsBoostChangedCallback,
        request.handler == (match callback {
            Some(f) => Handler::Raw(f),
            None => Handler::Clear,
        }),
{
    let handler = match callback {
        Some(f) => Handler::Raw(f),
        None => Handler::Clear,
    };
    RegisterRequest { entry: Entry::SetFpsBoostChangedCallback, handler }
}

/// Clears the raw FPS-boost change callback.
pub fn clear_fps_boost_changed_callback<F>() -> (request: RegisterRequest<F>)
    ensures
        request.entry == Entry::SetFpsBoostChangedCallback,
        request.handler == Handler::<F>::Clear,
{
    set_fps_boost_changed_callback(None)
}

/// Registers a raw `u32` callback for remote vsync change notifications; `None`
/// unregisters the current one.
pub fn set_vsync_changed_callback<F>(callback: Option<F>) -> (request: RegisterRequest<F>)
    ensures
        request.entry == Entry::SetVsyncChangedCallback,
        request.handler == (match callback {
            Some(f) => Handler::Raw(f),
            None => Handler::Clear,
        }),
{
    let handler = match callback {
        Some(f) => Handler::Raw(f),
        None => Handler::Clear,
    };
    RegisterRequest { entry: Entry::SetVsyncChangedCallback, handler }
}

/// Clears the raw vsync change callback.
pub fn clear_vsync_changed_callback<F>() -> (request: RegisterRequest<F>)
    ensures
        request.entry == Entry::SetVsyncChangedCallback,
        request.handler == Handler::<F>::Clear,
{
    set_vsync_changed_callback(None)
}

/// Registers a raw `u32` callback for remote render-optimization change notifications; `None`
/// unregisters the current one.
pub fn set_render_opts_changed_callback<F>(callback: Option<F>) -> (request: RegisterRequest<F>)
    ensures
        request.entry == Entry::SetRenderOptsChangedCallback,
        request.handler == (match callback {
            Some(f) => Handler::Raw(f),
            None => Handler::Clear,
        }),
{
    let handler = match callback {
        Some(f) => Handler::Raw(f),
        None => Handler::Clear,
    };
    RegisterRequest { entry: Entry::SetRenderOptsChangedCallback, handler }
}

/// Clears the raw render-optimization change callback.
pub fn clear_render_opts_changed_callback<F>() -> (request: RegisterRequest<F>)
    ensures
        request.entry == Entry::SetRenderOptsChangedCallback,
        request.handler == Handler::<F>::Clear,
{
    set_render_opts_changed_callback(None)
}

/// Registers a raw `u32` callback for remote buffer-mode change notifications; `None`
/// unregisters the current one.
pub fn set_buffer_mode_changed_callback<F>(callback: Option<F>) -> (request: RegisterRequest<F>)
    ensures
        request.entry == Entry::SetBufferModeChangedCallback,
        request.handler == (match callback {
            Some(f) => Handler::Raw(f),
            None => Handler::Clear,
        }),
{
    let handler = match callback {
        Some(f) => Handler::Raw(f),
        None => Handler::Clear,
    };
    RegisterRequest { entry: Entry::SetBufferModeChangedCallback, handler }
}

/// Clears the raw buffer-mode change callback.
pub fn clear_buffer_mode_changed_callback<F>() -> (request: RegisterRequest<F>)
    ensures
        request.entry == Entry::SetBufferModeChangedCallback,
        request.handler == Handler::<F>::Clear,
{
    set_buffer_mode_changed_callback(None)
}

/// Registers a raw `u32` callback for remote index-mode change notifications; `None`
/// unregisters the current one.
pub fn set_index_mode_changed_callback<F>(callback: Option<F>) -> (request: RegisterRequest<F>)
    ensures
        request.entry == Entry::SetIndexModeChangedCallback,
        request.handler == (match callback {
            Some(f) => Handler::Raw(f),
            None => Handler::Clear,
        }),
{
    let handler = match callback {
        Some(f) => Handler::Raw(f),
        None => Handler::Clear,
    };
    RegisterRequest { entry: Entry::SetIndexModeChangedCallback, handler }
}

/// Clears the raw index-mode change callback.
pub fn clear_index_mode_changed_callback<F>() -> (request: RegisterRequest<F>)
    ensures
        request.entry == Entry::SetIndexModeChangedCallback,
        request.handler == Handler::<F>::Clear,
{
    set_index_mode_changed_callback(None)
}

} // verus!
