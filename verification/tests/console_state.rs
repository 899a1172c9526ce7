use ultelier::console::log::MAX_LOG_LINES;
use ultelier::console::state::{
    action_request, read_command_buffer, Action, ConsoleState, RemoteReadings, RemoteSnapshot,
};
use ultelier::remote::{Entry, RemoteCall};
use ultelier::{BufferMode, DockedProfile, EnvironmentFlags, IndexMode, NsTuffStatus, OverclockProfile};

fn log_of(state: &ConsoleState) -> Vec<String> {
    state.log.lines().iter().cloned().collect()
}

#[test]
fn new_console_greets() {
    let state = ConsoleState::new();
    assert_eq!(
        log_of(&state),
        vec![
            "console ready: host requires imgui-smash and ssbusync to be loaded".to_string(),
            "toggle with ZL + ZR + DPad-Down".to_string(),
        ]
    );
    assert!(!state.visible);
    assert!(state.show_mouse);
    assert!(state.auto_scroll);
    assert_eq!(state.snapshot, RemoteSnapshot::default());
}

#[test]
fn log_keeps_at_most_max_lines() {
    let mut state = ConsoleState::new();
    for i in 0..300 {
        state.push_log(format!("line {i}"));
    }
    let log = log_of(&state);
    assert_eq!(log.len(), MAX_LOG_LINES);
    assert_eq!(log.first().unwrap(), "line 44");
    assert_eq!(log.last().unwrap(), "line 299");
}

#[test]
fn run_command_echoes_and_returns_remote_action() {
    let mut state = ConsoleState::new();
    let action = state.run_command("  Vsync Off ");
    assert!(matches!(action, Some(Action::SetVsync(false))));
    assert_eq!(log_of(&state).last().unwrap(), "> Vsync Off");
}

#[test]
fn run_command_handles_local_commands() {
    let mut state = ConsoleState::new();
    assert!(state.run_command("mouse off").is_none());
    assert!(!state.show_mouse);
    let log = log_of(&state);
    assert_eq!(log[log.len() - 2], "> mouse off");
    assert_eq!(log[log.len() - 1], "show_mouse -> off");

    assert!(state.run_command("help").is_none());
    let log = log_of(&state);
    assert_eq!(log[log.len() - 6], "> help");
    assert_eq!(log[log.len() - 1], "help: index immediate/onebehind/twobehind");

    assert!(state.run_command("buffer quad").is_none());
    assert_eq!(log_of(&state).last().unwrap(), "error: buffer expects 'double' or 'triple'");

    assert!(matches!(state.run_command("refresh"), Some(Action::Refresh { verbose: true })));
    assert!(matches!(state.run_command("callbacks"), Some(Action::RegisterCallbacks)));
}

#[test]
fn run_command_blank_and_clear() {
    let mut state = ConsoleState::new();
    let before = log_of(&state);
    assert!(state.run_command("   ").is_none());
    assert_eq!(log_of(&state), before);
    assert!(state.run_command("Clear").is_none());
    assert_eq!(log_of(&state), vec!["log cleared".to_string()]);
}

#[test]
fn perform_action_routes() {
    let mut state = ConsoleState::new();
    assert!(state.perform_action(Action::ClearLog).is_none());
    assert_eq!(log_of(&state), vec!["log cleared".to_string()]);
    assert!(matches!(state.perform_action(Action::SetPacer(true)), Some(Action::SetPacer(true))));
    assert!(matches!(
        state.perform_action(Action::RunCommand("index immediate".to_string())),
        Some(Action::SetIndexMode(IndexMode::Immediate))
    ));
    assert!(matches!(state.perform_action(Action::Refresh { verbose: false }), Some(Action::Refresh { verbose: false })));
}

#[test]
fn action_requests_and_recorded_replies() {
    let request = action_request(&Action::SetBufferMode(BufferMode::Triple)).unwrap();
    assert_eq!(request.call, RemoteCall::Write(Entry::SetBufferMode, 3));
    assert_eq!(
        action_request(&Action::SetRenderOpts(true)).unwrap().call,
        RemoteCall::Write(Entry::SetRenderOptsEnabled, 1)
    );
    assert!(action_request(&Action::ClearLog).is_none());

    let mut state = ConsoleState::new();
    state.record_guest_call(&Action::SetVsync(true), Some(true));
    assert_eq!(log_of(&state).last().unwrap(), "set_vsync_enabled(on) -> ok");
    state.record_guest_call(&Action::SetIndexMode(IndexMode::OneBehind), Some(false));
    assert_eq!(log_of(&state).last().unwrap(), "set_index_mode(onebehind) -> rejected");
    state.record_guest_call(&Action::SetBufferMode(BufferMode::Double), None);
    assert_eq!(log_of(&state).last().unwrap(), "set_buffer_mode(double) -> symbol unavailable");
    let before = log_of(&state);
    state.record_guest_call(&Action::ClearLog, Some(true));
    assert_eq!(log_of(&state), before);
}

#[test]
fn callback_registration_decisions() {
    let mut state = ConsoleState::new();
    assert!(!state.maybe_register_callbacks(false, true));
    assert_eq!(
        log_of(&state).last().unwrap(),
        "ssbusync symbols are not present; callback registration skipped"
    );
    assert!(state.maybe_register_callbacks(true, true));
    state.finish_callback_registration(true, true, false, true);
    assert!(!state.callbacks_registered);
    assert_eq!(log_of(&state).last().unwrap(), "failed to register one or more ssbusync callbacks");
    assert!(state.maybe_register_callbacks(true, false));
    state.finish_callback_registration(true, true, true, true);
    assert!(state.callbacks_registered);
    assert!(!state.maybe_register_callbacks(true, true));
    assert_eq!(log_of(&state).last().unwrap(), "callbacks already registered");
    assert!(!state.maybe_register_callbacks(false, false));
    assert!(!state.callbacks_registered);
}

fn readings(flags: Option<u32>) -> RemoteReadings {
    let mut status = NsTuffStatus::default();
    status.undervolt_enabled = 1;
    status.undervolt_active = 1;
    status.undervolt_gpu_mv = 610;
    RemoteReadings {
        remote_present: true,
        runtime_status: Some(true),
        nstuff_status: Some(status),
        overclock_safe_profiles: Some(true),
        env_flags: flags.map(EnvironmentFlags::new),
        overclock_profile: Some(Some(OverclockProfile::PerformanceFfa)),
        docked_profile: Some(DockedProfile::Ffa),
        index_mode: Some(None),
        render_opts_enabled: Some(false),
    }
}

#[test]
fn snapshot_from_readings_derives_switches() {
    let snapshot = RemoteSnapshot::from_readings(readings(Some(
        EnvironmentFlags::VSYNC_ENABLED | EnvironmentFlags::TRIPLE_ENABLED,
    )));
    assert_eq!(snapshot.vsync_enabled, Some(true));
    assert_eq!(snapshot.pacer_enabled, Some(false));
    assert_eq!(snapshot.buffer_mode, Some(BufferMode::Triple));
    assert_eq!(snapshot.overclock_profile, Some(OverclockProfile::PerformanceFfa));
    assert_eq!(snapshot.index_mode, None);
    assert_eq!(snapshot.docked_profile, Some(DockedProfile::Ffa));
    let mut no_profile = readings(Some(0));
    no_profile.overclock_profile = Some(None);
    assert_eq!(RemoteSnapshot::from_readings(no_profile).docked_profile, None);
    let unknown = RemoteSnapshot::from_readings(readings(None));
    assert_eq!(unknown.vsync_enabled, None);
    assert_eq!(unknown.buffer_mode, None);
    let double = RemoteSnapshot::from_readings(readings(Some(0)));
    assert_eq!(double.buffer_mode, Some(BufferMode::Double));
}

#[test]
fn apply_snapshot_logs_presence_and_summary() {
    let mut state = ConsoleState::new();
    let snapshot = RemoteSnapshot::from_readings(readings(Some(EnvironmentFlags::VSYNC_ENABLED)));
    state.apply_snapshot(snapshot, true);
    let log = log_of(&state);
    assert_eq!(log[log.len() - 2], "ssbusync presence changed -> on");
    assert_eq!(
        log[log.len() - 1],
        "snapshot: remote=on runtime=on profile=safe:ffa uv=active gpu_mv=610 vsync=on render_opts=off pacer=off buffer=double index=unknown"
    );
    let count = log.len();
    state.apply_snapshot(snapshot, false);
    assert_eq!(log_of(&state).len(), count);
}

#[test]
fn notifications_update_snapshot_and_flags() {
    let mut state = ConsoleState::new();
    state.snapshot = RemoteSnapshot::from_readings(readings(Some(0)));
    state.on_vsync_changed(true);
    assert_eq!(state.snapshot.vsync_enabled, Some(true));
    assert!(state.snapshot.env_flags.unwrap().contains(EnvironmentFlags::VSYNC_ENABLED));
    assert_eq!(log_of(&state).last().unwrap(), "event: vsync -> on");
    state.on_render_opts_changed(true);
    assert_eq!(state.snapshot.render_opts_enabled, Some(true));
    state.on_buffer_mode_changed(BufferMode::Triple);
    assert!(state.snapshot.env_flags.unwrap().contains(EnvironmentFlags::TRIPLE_ENABLED));
    assert_eq!(log_of(&state).last().unwrap(), "event: buffer -> triple");
    state.on_index_mode_changed(IndexMode::OneBehind);
    assert_eq!(state.snapshot.index_mode, Some(IndexMode::OneBehind));
    assert_eq!(state.snapshot.env_flags.unwrap().extract_value(EnvironmentFlags::INDEX_MODE), 1);
    assert_eq!(log_of(&state).last().unwrap(), "event: index mode -> onebehind");
    assert_eq!(state.snapshot.env_flags.unwrap().bits(), 32 | 64 | 4 | 8);

    let mut fresh = ConsoleState::new();
    fresh.on_vsync_changed(false);
    assert_eq!(fresh.snapshot.env_flags, None);
    assert_eq!(fresh.snapshot.vsync_enabled, Some(false));
}

#[test]
fn frames_refresh_on_first_and_every_thirtieth() {
    let mut state = ConsoleState::new();
    let mut refreshed = Vec::new();
    for frame in 1..=61u32 {
        if state.advance_frame() {
            refreshed.push(frame);
        }
    }
    assert_eq!(refreshed, vec![1, 30, 60]);
    state.frame_counter = u32::MAX;
    assert!(state.advance_frame());
    assert_eq!(state.frame_counter, 0);
}

#[test]
fn toggle_flips_on_press_only() {
    let mut state = ConsoleState::new();
    assert!(state.poll_visibility_toggle(true));
    assert!(state.visible);
    assert_eq!(log_of(&state).last().unwrap(), "console visibility -> on");
    assert!(!state.poll_visibility_toggle(true));
    assert!(state.visible);
    assert!(!state.poll_visibility_toggle(false));
    assert!(!state.poll_visibility_toggle(true));
    assert!(!state.visible);
    assert_eq!(log_of(&state).last().unwrap(), "console visibility -> off");
    assert!(state.mouse_shown() == false);
}

#[test]
fn command_buffer_is_read_and_emptied() {
    let mut state = ConsoleState::new();
    let text = b"  vsync on  ";
    state.command_buffer[..text.len()].copy_from_slice(text);
    assert_eq!(state.take_command(), Some("vsync on".to_string()));
    assert!(state.command_buffer.iter().all(|b| *b == 0));
    assert_eq!(state.take_command(), None);

    let mut buffer = [0u8; 256];
    buffer[..4].copy_from_slice(b"help");
    buffer[5] = b'x';
    assert_eq!(read_command_buffer(&buffer), "help");
    let mut bad = [0u8; 256];
    bad[0] = 0xFF;
    bad[1] = b'a';
    assert_eq!(read_command_buffer(&bad), "\u{FFFD}a");
    let full = [b'a'; 256];
    assert_eq!(read_command_buffer(&full).len(), 256);
}

#[test]
fn runtime_lines_show_snapshot() {
    let mut state = ConsoleState::new();
    state.snapshot = RemoteSnapshot::from_readings(readings(Some(
        EnvironmentFlags::TRIPLE_ENABLED | (2 << 3) | EnvironmentFlags::OVERCLOCKER,
    )));
    let lines = state.runtime_lines();
    assert_eq!(lines.len(), 13);
    assert_eq!(lines[0], "ultelier debug console is running inside libultelier.nro");
    assert_eq!(lines[2], "ssbusync symbols present: on");
    assert_eq!(lines[4], "overclock preset: safe | active profile: ffa | docked slot: ffa");
    assert_eq!(lines[5], "nx-over: off | title_match=off | poll=0ms | power profile=handheld");
    assert_eq!(lines[6], "undervolt: on | state: active | cpu mode: 0 | gpu mv: 610");
    assert_eq!(lines[7], "callbacks registered: off");
    assert_eq!(lines[8], "vsync: off | render_opts: off | pacer: off | buffer: triple");
    assert_eq!(lines[10], "env flags: 0x00000414");
    assert_eq!(lines[11], "swapping_buffer=off swapping_index=off triple=on index_mode=twobehind");
    assert_eq!(
        lines[12],
        "vsync=off render_opts=off pacer=off profiling=off slow_pacer_bias=off overclocker=on"
    );
    let blank = ConsoleState::new().runtime_lines();
    assert_eq!(blank[10], "env flags: unavailable");
    assert_eq!(blank[11], "swapping_buffer=unknown swapping_index=unknown triple=unknown index_mode=unknown");
}

#[test]
fn frame_actions_need_visible_open_window() {
    let mut state = ConsoleState::new();
    let panel = vec![Action::SetPacer(true)];
    assert!(state.frame_actions(true, true, panel).is_empty());
    state.visible = true;
    assert!(state.frame_actions(true, false, vec![Action::ClearLog]).is_empty());
    let actions = state.frame_actions(true, true, vec![Action::SetPacer(true)]);
    assert_eq!(actions.len(), 2);
    assert!(matches!(actions[0], Action::Refresh { verbose: false }));
    assert!(matches!(actions[1], Action::SetPacer(true)));
    let actions = state.frame_actions(false, true, vec![Action::ClearLog]);
    assert_eq!(actions.len(), 1);
    assert!(matches!(actions[0], Action::ClearLog));
}

#[test]
fn logging_marks_the_log_for_scrolling() {
    let mut state = ConsoleState::new();
    assert!(state.log.take_dirty());
    assert!(!state.log.take_dirty());
    state.apply_snapshot(RemoteSnapshot::default(), false);
    assert!(!state.log.take_dirty());
    state.apply_snapshot(RemoteSnapshot::default(), true);
    assert!(state.log.take_dirty());
    let _ = state.advance_frame();
    assert!(!state.log.take_dirty());
    state.on_vsync_changed(true);
    assert!(state.log.take_dirty());
}
