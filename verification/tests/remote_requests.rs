use ultelier::remote::{Entry, Handler, RemoteCall};
use ultelier::{BufferMode, EnvironmentFlags, IndexMode, NsTuffStatus, OverclockProfile, SsbuSyncConfig};

type StateCallback = fn(u32);

fn sample_callback(_: u32) {}

#[test]
fn symbols_are_nul_terminated_names() {
    assert_eq!(Entry::Status.symbol(), "ssbusync_status\0");
    assert_eq!(Entry::EnvGetFlags.symbol(), "ssbusync_env_get_flags\0");
    assert_eq!(Entry::GetTripleBufferEnabled.symbol(), "ssbusync_get_triple_buffer_enabled\0");
    assert_eq!(Entry::GetNstuffStatus.symbol(), "ssbusync_get_nstuff_status\0");
    assert_eq!(Entry::SetIndexModeChangedCallback.symbol(), "ssbusync_set_index_mode_changed_callback\0");
}

#[test]
fn symbol_address_needs_success_and_non_null() {
    assert_eq!(ultelier::remote::symbol_address(0, 0x1000), Some(0x1000));
    assert_eq!(ultelier::remote::symbol_address(0, 0), None);
    assert_eq!(ultelier::remote::symbol_address(1, 0x1000), None);
}

#[test]
fn getters_read_their_entry_points() {
    assert_eq!(ultelier::status().call, RemoteCall::Read(Entry::Status));
    assert_eq!(ultelier::env_flags().call, RemoteCall::Read(Entry::EnvGetFlags));
    assert_eq!(ultelier::vsync_enabled().call, RemoteCall::Read(Entry::GetVsyncEnabled));
    assert_eq!(ultelier::render_opts_enabled().call, RemoteCall::Read(Entry::GetRenderOptsEnabled));
    assert_eq!(ultelier::pacer_enabled().call, RemoteCall::Read(Entry::GetPacerEnabled));
    assert_eq!(ultelier::triple_buffer_enabled().call, RemoteCall::Read(Entry::GetTripleBufferEnabled));
    assert_eq!(ultelier::buffer_mode().call, RemoteCall::Read(Entry::GetBufferMode));
    assert_eq!(ultelier::index_mode().call, RemoteCall::Read(Entry::GetIndexMode));
    assert_eq!(ultelier::current_overclock_profile().call, RemoteCall::Read(Entry::CurrentOverclockProfile));
    assert_eq!(ultelier::overclock_uses_safe_profiles().call, RemoteCall::Read(Entry::OverclockUsesSafeProfiles));
    assert_eq!(ultelier::remote_present().entry, Entry::Status);
    assert_eq!(ultelier::current_nstuff_status().entry, Entry::GetNstuffStatus);
}

#[test]
fn setters_send_wire_values() {
    assert_eq!(ultelier::set_vsync_enabled(false).call, RemoteCall::Write(Entry::SetVsyncEnabled, 0));
    assert_eq!(ultelier::set_vsync_enabled(true).call, RemoteCall::Write(Entry::SetVsyncEnabled, 1));
    assert_eq!(ultelier::set_render_opts_enabled(true).call, RemoteCall::Write(Entry::SetRenderOptsEnabled, 1));
    assert_eq!(ultelier::set_pacer_enabled(false).call, RemoteCall::Write(Entry::SetPacerEnabled, 0));
    assert_eq!(ultelier::set_triple_buffer_enabled(true), ultelier::set_buffer_mode(BufferMode::Triple));
    assert_eq!(ultelier::set_triple_buffer_enabled(false), ultelier::set_buffer_mode(BufferMode::Double));
    assert_eq!(ultelier::set_triple_buffer_enabled(true).call, RemoteCall::Write(Entry::SetBufferMode, 3));
    assert_eq!(ultelier::set_buffer_mode(BufferMode::Double).call, RemoteCall::Write(Entry::SetBufferMode, 2));
    assert_eq!(ultelier::set_buffer_mode(BufferMode::Triple).call, RemoteCall::Write(Entry::SetBufferMode, 3));
    assert_eq!(ultelier::set_index_mode(IndexMode::OneBehind).call, RemoteCall::Write(Entry::SetIndexMode, 1));
    assert_eq!(ultelier::set_overclock_profile(OverclockProfile::Rest).call, RemoteCall::Write(Entry::SetOverclockProfile, 3));
    assert_eq!(
        ultelier::replace_env_flags(EnvironmentFlags::new(0x24)).call,
        RemoteCall::Write(Entry::EnvReplaceFlags, 0x24)
    );
    assert_eq!(
        ultelier::set_env_flag(EnvironmentFlags::TRIPLE_ENABLED, true).call,
        RemoteCall::WriteTwo(Entry::EnvSetFlag, 4, 1)
    );
}

#[test]
fn install_carries_config() {
    let config = SsbuSyncConfig {
        enable_vsync: true,
        enable_render_opts: false,
        enabled_pacer: true,
        slow_pacer_bias: false,
        enable_triple_buffer: true,
        index_mode: IndexMode::TwoBehind,
        profiling: false,
        overclocker: true,
    };
    let request = ultelier::install(config);
    assert_eq!(request.entry, Entry::Install);
    assert_eq!(request.config, config);
}

#[test]
fn replies_decode() {
    assert_eq!(ultelier::vsync_enabled().finish(Some(0)), Some(false));
    assert_eq!(ultelier::vsync_enabled().finish(Some(7)), Some(true));
    assert_eq!(ultelier::vsync_enabled().finish(None), None);
    assert_eq!(ultelier::env_flags().finish(Some(0x44)).map(|f| f.bits()), Some(0x44));
    assert_eq!(ultelier::env_flags().finish(None), None);
    assert_eq!(ultelier::status().finish(Some(9)), Some(9));
    assert_eq!(ultelier::buffer_mode().finish(Some(3)), Some(Some(BufferMode::Triple)));
    assert_eq!(ultelier::buffer_mode().finish(Some(1)), Some(None));
    assert_eq!(ultelier::buffer_mode().finish(None), None);
    assert_eq!(ultelier::index_mode().finish(Some(0)), Some(Some(IndexMode::Immediate)));
    assert_eq!(ultelier::index_mode().finish(Some(5)), Some(None));
    assert_eq!(ultelier::current_overclock_profile().finish(Some(0)), Some(Some(OverclockProfile::PerformanceSingles)));
    assert_eq!(ultelier::current_overclock_profile().finish(Some(9)), Some(None));
    assert!(ultelier::remote_present().finish(Some(0x10)));
    assert!(!ultelier::remote_present().finish(None));
}

#[test]
fn status_block_kept_only_on_success() {
    let mut block = NsTuffStatus::default();
    block.applied_cpu_hz = 1_785_000_000;
    let request = ultelier::current_nstuff_status();
    assert_eq!(request.finish(Some((1, block))), Some(block));
    assert_eq!(request.finish(Some((0, block))), None);
    assert_eq!(request.finish(None), None);
}

#[test]
fn callback_registration_requests() {
    let set = ultelier::set_vsync_changed_callback::<StateCallback>(Some(sample_callback));
    assert_eq!(set.entry, Entry::SetVsyncChangedCallback);
    assert!(matches!(set.handler, Handler::Raw(_)));
    let cleared = ultelier::clear_buffer_mode_changed_callback::<StateCallback>();
    assert_eq!(cleared.entry, Entry::SetBufferModeChangedCallback);
    assert!(matches!(cleared.handler, Handler::Clear));
    let none = ultelier::set_index_mode_changed_callback::<StateCallback>(None);
    assert!(matches!(none.handler, Handler::Clear));
    assert_eq!(ultelier::clear_render_opts_changed_callback::<StateCallback>().entry, Entry::SetRenderOptsChangedCallback);
    assert_eq!(ultelier::clear_fps_boost_changed_callback::<StateCallback>().entry, Entry::SetFpsBoostChangedCallback);
    assert_eq!(set.finish(Some(1)), Some(true));
    assert_eq!(set.finish(Some(0)), Some(false));
    assert_eq!(set.finish(None), None);
}
