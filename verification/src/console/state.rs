//! The console's state and the decisions of its drawing loop: reading and
//! running commands, routing actions, recording remote replies and change
//! notifications, and toggling visibility.

use vstd::prelude::*;
use vstd::slice::slice_subrange;
use vstd::string::*;
use crate::console::command::{command_of, complaint_message, parse_command, Command, Complaint};
use crate::console::log::{pushed, pushed_all, ConsoleLog};
use crate::console::names::{
    buffer_mode_name, buffer_mode_name_text, guest_result, guest_result_text, hex8, hex_string,
    index_mode_name, index_mode_name_text, on_off, on_off_text, option_bool, option_bool_text,
    option_docked_profile, option_docked_profile_text,
    option_buffer_mode, option_buffer_mode_text, option_flag, option_flag_text, option_index_mode,
    option_index_mode_field, option_index_mode_field_text, option_index_mode_text,
    option_nstuff_enabled, option_nstuff_enabled_text, option_nstuff_poll_interval,
    option_nstuff_poll_interval_text, option_nstuff_profile, option_nstuff_profile_text,
    option_nstuff_title_match, option_nstuff_title_match_text, option_overclock_preset,
    option_overclock_preset_text, option_overclock_profile, option_overclock_profile_text,
    option_uv_cpu_mode, option_uv_cpu_mode_text, option_uv_enabled, option_uv_enabled_text,
    option_uv_gpu_mv, option_uv_gpu_mv_text, option_uv_state, option_uv_state_text,
};
use crate::console::text::{chars_of, trim, trim_bounds, utf8_lossy, utf8_lossy_string};
use crate::flags::{
    any_set, field_of, lemma_flag_values, lemma_index_field_round_trip, lemma_index_field_shift,
    lemma_with_then_contains, with_field, with_mask, EnvironmentFlags,
};
use crate::modes::{
    buffer_mode_value, index_mode_of, index_mode_value, BufferMode, DockedProfile, IndexMode,
    NsTuffStatus, OverclockProfile,
};
use crate::remote::{bool_value, Entry, FlagRequest, RemoteCall};

verus! {

/// Length of the console's command input buffer.
pub const COMMAND_BUFFER_LEN: usize = 256;

/// The console refreshes its snapshot on its first frame and then every this
/// many frames.
pub const AUTO_REFRESH_FRAMES: u32 = 30;

/// Something the console asks its host to do.
#[derive(Debug)]
pub enum Action {
    Refresh { verbose: bool },
    RegisterCallbacks,
    ClearLog,
    SetVsync(bool),
    SetRenderOpts(bool),
    SetPacer(bool),
    SetBufferMode(BufferMode),
    SetIndexMode(IndexMode),
    RunCommand(String),
}

/// The console's state.
pub struct ConsoleState {
    pub snapshot: RemoteSnapshot,
    pub command_buffer: [u8; COMMAND_BUFFER_LEN],
    pub log: ConsoleLog,
    pub callbacks_registered: bool,
    pub visible: bool,
    pub show_mouse: bool,
    pub auto_scroll: bool,
    pub frame_counter: u32,
    pub prev_toggle_combo_held: bool,
}

/// What the console last learned of the remote runtime.
#[derive(Debug, Clone, Copy, PartialEq, Eq, Structural)]
pub struct RemoteSnapshot {
    pub remote_present: bool,
    pub runtime_status: Option<bool>,
    pub nstuff_status: Option<NsTuffStatus>,
    pub overclock_safe_profiles: Option<bool>,
    pub env_flags: Option<EnvironmentFlags>,
    pub overclock_profile: Option<OverclockProfile>,
    pub docked_profile: Option<DockedProfile>,
    pub vsync_enabled: Option<bool>,
    pub render_opts_enabled: Option<bool>,
    pub pacer_enabled: Option<bool>,
    pub buffer_mode: Option<BufferMode>,
    pub index_mode: Option<IndexMode>,
}

impl RemoteSnapshot {
    /// A snapshot that knows nothing: the runtime absent and every reading
    /// unknown.
    pub open spec fn spec_unknown() -> Self {
        RemoteSnapshot {
            remote_present: false,
            runtime_status: None,
            nstuff_status: None,
            overclock_safe_profiles: None,
            env_flags: None,
            overclock_profile: None,
            docked_profile: None,
            vsync_enabled: None,
            render_opts_enabled: None,
            pacer_enabled: None,
            buffer_mode: None,
            index_mode: None,
        }
    }

    /// A snapshot that knows nothing.
    pub fn unknown() -> (snapshot: Self)
        ensures
            snapshot == Self::spec_unknown(),
    {
        RemoteSnapshot {
            remote_present: false,
            runtime_status: None,
            nstuff_status: None,
            overclock_safe_profiles: None,
            env_flags: None,
            overclock_profile: None,
            docked_profile: None,
            vsync_enabled: None,
            render_opts_enabled: None,
            pacer_enabled: None,
            buffer_mode: None,
            index_mode: None,
        }
    }
}

impl Default for RemoteSnapshot {
    /// A snapshot that knows nothing.
    fn default() -> (snapshot: Self)
        ensures
            snapshot == Self::spec_unknown(),
    {
        Self::unknown()
    }
}

/// The line that echoes a command.
pub open spec fn echo_line(trimmed: Seq<char>) -> Seq<char> {
    "> "@ + trimmed
}

/// The lines that `help` prints.
pub open spec fn help_lines() -> Seq<Seq<char>> {
    seq![
        "help: refresh | clear | callbacks"@,
        "help: mouse on/off"@,
        "help: vsync on/off | render on/off | pacer on/off"@,
        "help: buffer double/triple"@,
        "help: index immediate/onebehind/twobehind"@,
    ]
}

/// The line logged for a refused command.
pub open spec fn error_line(complaint: Complaint) -> Seq<char> {
    "error: "@ + complaint_message(complaint)
}

/// The line logged when the mouse cursor is switched.
pub open spec fn mouse_line(on: bool) -> Seq<char> {
    "show_mouse -> "@ + on_off_text(on)
}

/// The lines a command logs after its echo.
pub open spec fn command_replies(command: Command) -> Seq<Seq<char>> {
    match command {
        Command::Help => help_lines(),
        Command::Mouse(on) => seq![mouse_line(on)],
        Command::Invalid(complaint) => seq![error_line(complaint)],
        _ => Seq::empty(),
    }
}

/// The action a command hands to the host.
pub open spec fn command_action(command: Command) -> Option<Action> {
    match command {
        Command::Refresh => Some(Action::Refresh { verbose: true }),
        Command::Callbacks => Some(Action::RegisterCallbacks),
        Command::Vsync(on) => Some(Action::SetVsync(on)),
        Command::RenderOpts(on) => Some(Action::SetRenderOpts(on)),
        Command::Pacer(on) => Some(Action::SetPacer(on)),
        Command::Buffer(mode) => Some(Action::SetBufferMode(mode)),
        Command::Index(mode) => Some(Action::SetIndexMode(mode)),
        _ => None,
    }
}

/// The log after a command: untouched for blank input, reset to a single
/// notice by `clear`, otherwise extended by the echo and the command's
/// replies.
pub open spec fn log_after_command(log: Seq<Seq<char>>, input: Seq<char>) -> Seq<Seq<char>> {
    let command = command_of(input);
    match command {
        Command::Empty => log,
        Command::Clear => seq!["log cleared"@],
        _ => pushed_all(log, seq![echo_line(trim(input))] + command_replies(command)),
    }
}

/// The mouse setting after a command.
pub open spec fn show_mouse_after_command(show_mouse: bool, input: Seq<char>) -> bool {
    match command_of(input) {
        Command::Mouse(on) => on,
        _ => show_mouse,
    }
}

/// The fields other than the log and the mouse setting are the same.
pub open spec fn same_but_log_and_mouse(a: &ConsoleState, b: &ConsoleState) -> bool {
    &&& a.snapshot == b.snapshot
    &&& a.command_buffer@ == b.command_buffer@
    &&& a.callbacks_registered == b.callbacks_registered
    &&& a.visible == b.visible
    &&& a.auto_scroll == b.auto_scroll
    &&& a.frame_counter == b.frame_counter
    &&& a.prev_toggle_combo_held == b.prev_toggle_combo_held
}

/// The fields other than the snapshot and the log are the same.
pub open spec fn same_flags_but_snapshot_and_log(a: &ConsoleState, b: &ConsoleState) -> bool {
    &&& a.command_buffer@ == b.command_buffer@
    &&& a.callbacks_registered == b.callbacks_registered
    &&& a.visible == b.visible
    &&& a.show_mouse == b.show_mouse
    &&& a.auto_scroll == b.auto_scroll
    &&& a.frame_counter == b.frame_counter
    &&& a.prev_toggle_combo_held == b.prev_toggle_combo_held
}

/// The command typed into `buffer`.
pub fn read_command_buffer(buffer: &[u8; COMMAND_BUFFER_LEN]) -> (text: String)
    ensures
        text@ == command_text(buffer@),
{
    let mut len: usize = 0;
    assert(buffer@.skip(0) =~= buffer@);
    while len < 256 && buffer[len] != 0
        invariant
            len <= 256,
            buffer@.len() == 256,
            text_end(buffer@) == len + text_end(buffer@.skip(len as int)),
        decreases 256 - len,
    {
        assert(buffer@.skip(len as int).drop_first() =~= buffer@.skip(len + 1));
        len = len + 1;
    }
    assert(text_end(buffer@.skip(len as int)) == 0);
    let bytes = slice_subrange(buffer.as_slice(), 0, len);
    let decoded = utf8_lossy_string(bytes);
    let chars = chars_of(decoded.as_str());
    let (start, end) = trim_bounds(&chars);
    String::from_str(decoded.as_str().substring_char(start, end))
}

/// A string holding `text`.
fn owned(text: &str) -> (s: String)
    ensures
        s@ == text@,
{
    String::from_str(text)
}

/// `first` followed by `second`.
fn joined(first: &str, second: &str) -> (s: String)
    ensures
        s@ == first@ + second@,
{
    let mut s = String::from_str(first);
    s.append(second);
    s
}


/// The remote request behind a setter action.
pub open spec fn action_call(action: Action) -> Option<FlagRequest> {
    match action {
        Action::SetVsync(on) => Some(FlagRequest { call: RemoteCall::Write(Entry::SetVsyncEnabled, bool_value(on)) }),
        Action::SetRenderOpts(on) => Some(FlagRequest { call: RemoteCall::Write(Entry::SetRenderOptsEnabled, bool_value(on)) }),
        Action::SetPacer(on) => Some(FlagRequest { call: RemoteCall::Write(Entry::SetPacerEnabled, bool_value(on)) }),
        Action::SetBufferMode(mode) => Some(FlagRequest { call: RemoteCall::Write(Entry::SetBufferMode, buffer_mode_value(mode)) }),
        Action::SetIndexMode(mode) => Some(FlagRequest { call: RemoteCall::Write(Entry::SetIndexMode, index_mode_value(mode)) }),
        _ => None,
    }
}

/// The remote request that a setter action makes; `None` for the other
/// actions.
pub fn action_request(action: &Action) -> (request: Option<FlagRequest>)
    ensures
        request == action_call(*action),
        *action matches Action::SetPacer(on) ==> request == Some(
            FlagRequest { call: RemoteCall::Write(Entry::SetPacerEnabled, if on { 1u32 } else { 0u32 }) },
        ),
        *action matches Action::SetVsync(on) ==> request == Some(
            FlagRequest { call: RemoteCall::Write(Entry::SetVsyncEnabled, if on { 1u32 } else { 0u32 }) },
        ),
        *action matches Action::SetRenderOpts(on) ==> request == Some(
            FlagRequest { call: RemoteCall::Write(Entry::SetRenderOptsEnabled, if on { 1u32 } else { 0u32 }) },
        ),
{
    match action {
        Action::SetVsync(on) => Some(crate::set_vsync_enabled(*on)),
        Action::SetRenderOpts(on) => Some(crate::set_render_opts_enabled(*on)),
        Action::SetPacer(on) => Some(crate::set_pacer_enabled(*on)),
        Action::SetBufferMode(mode) => Some(crate::set_buffer_mode(*mode)),
        Action::SetIndexMode(mode) => Some(crate::set_index_mode(*mode)),
        _ => None,
    }
}

/// What each setter action asks of the remote runtime: a switch is sent to
/// its own entry point with 1 for on and 0 for off; double buffering is sent
/// as 2 and triple as 3; the index modes as 0, 1 and 2 frames behind.
pub proof fn lemma_setter_requests(on: bool)
    ensures
        action_call(Action::SetPacer(on)) == Some(
            FlagRequest { call: RemoteCall::Write(Entry::SetPacerEnabled, if on { 1u32 } else { 0u32 }) },
        ),
        action_call(Action::SetVsync(on)) == Some(
            FlagRequest { call: RemoteCall::Write(Entry::SetVsyncEnabled, if on { 1u32 } else { 0u32 }) },
        ),
        action_call(Action::SetRenderOpts(on)) == Some(
            FlagRequest { call: RemoteCall::Write(Entry::SetRenderOptsEnabled, if on { 1u32 } else { 0u32 }) },
        ),
        action_call(Action::SetBufferMode(BufferMode::Double)) == Some(
            FlagRequest { call: RemoteCall::Write(Entry::SetBufferMode, 2u32) },
        ),
        action_call(Action::SetBufferMode(BufferMode::Triple)) == Some(
            FlagRequest { call: RemoteCall::Write(Entry::SetBufferMode, 3u32) },
        ),
        action_call(Action::SetIndexMode(IndexMode::Immediate)) == Some(
            FlagRequest { call: RemoteCall::Write(Entry::SetIndexMode, 0u32) },
        ),
        action_call(Action::SetIndexMode(IndexMode::OneBehind)) == Some(
            FlagRequest { call: RemoteCall::Write(Entry::SetIndexMode, 1u32) },
        ),
        action_call(Action::SetIndexMode(IndexMode::TwoBehind)) == Some(
            FlagRequest { call: RemoteCall::Write(Entry::SetIndexMode, 2u32) },
        ),
{
}

/// The line that records a setter's reply names the call, its argument as
/// the user chose it and the outcome: `ok` when the runtime accepted it,
/// `rejected` when it refused, `symbol unavailable` when the entry point was
/// missing.
pub proof fn lemma_setter_log_lines(on: bool, result: Option<bool>)
    ensures
        guest_call_line(Action::SetPacer(on), result) == Some(
            "set_pacer_enabled("@ + (if on { "on"@ } else { "off"@ }) + (") -> "@ + match result {
                Some(true) => "ok"@,
                Some(false) => "rejected"@,
                None => "symbol unavailable"@,
            }),
        ),
        guest_call_line(Action::SetVsync(on), result) == Some(
            "set_vsync_enabled("@ + (if on { "on"@ } else { "off"@ }) + (") -> "@ + match result {
                Some(true) => "ok"@,
                Some(false) => "rejected"@,
                None => "symbol unavailable"@,
            }),
        ),
        guest_call_line(Action::SetRenderOpts(on), result) == Some(
            "set_render_opts_enabled("@ + (if on { "on"@ } else { "off"@ }) + (") -> "@ + match result {
                Some(true) => "ok"@,
                Some(false) => "rejected"@,
                None => "symbol unavailable"@,
            }),
        ),
        guest_call_line(Action::SetBufferMode(BufferMode::Triple), result) == Some(
            "set_buffer_mode("@ + "triple"@ + (") -> "@ + guest_result_text(result)),
        ),
        guest_call_line(Action::SetBufferMode(BufferMode::Double), result) == Some(
            "set_buffer_mode("@ + "double"@ + (") -> "@ + guest_result_text(result)),
        ),
{
}

/// Switching on and switching off send different values to the same entry
/// point.
pub proof fn lemma_setter_switches_differ(on: bool)
    ensures
        action_call(Action::SetPacer(on)) != action_call(Action::SetPacer(!on)),
        action_call(Action::SetVsync(on)) != action_call(Action::SetVsync(!on)),
        action_call(Action::SetRenderOpts(on)) != action_call(Action::SetRenderOpts(!on)),
{
}

/// The line that records the reply to a setter action.
pub open spec fn guest_call_line(action: Action, result: Option<bool>) -> Option<Seq<char>> {
    let outcome = ") -> "@ + guest_result_text(result);
    match action {
        Action::SetVsync(on) => Some("set_vsync_enabled("@ + on_off_text(on) + outcome),
        Action::SetRenderOpts(on) => Some("set_render_opts_enabled("@ + on_off_text(on) + outcome),
        Action::SetPacer(on) => Some("set_pacer_enabled("@ + on_off_text(on) + outcome),
        Action::SetBufferMode(mode) => Some("set_buffer_mode("@ + buffer_mode_name_text(mode) + outcome),
        Action::SetIndexMode(mode) => Some("set_index_mode("@ + index_mode_name_text(mode) + outcome),
        _ => None,
    }
}

/// `call`, the argument, and the outcome, in the form `call(arg) -> outcome`.
fn call_line(call: &str, arg: &str, result: Option<bool>) -> (line: String)
    ensures
        line@ == call@ + arg@ + (") -> "@ + guest_result_text(result)),
{
    let mut line = String::from_str(call);
    line.append(arg);
    line.append(") -> ");
    line.append(guest_result(result));
    assert(line@ =~= call@ + arg@ + (") -> "@ + guest_result_text(result)));
    line
}

/// The log line of the "presence changed" notice.
pub open spec fn presence_line(present: bool) -> Seq<char> {
    "ssbusync presence changed -> "@ + on_off_text(present)
}

/// The readings from which a snapshot is made.
#[derive(Debug, Clone, Copy, PartialEq, Eq, Structural)]
pub struct RemoteReadings {
    pub remote_present: bool,
    pub runtime_status: Option<bool>,
    pub nstuff_status: Option<NsTuffStatus>,
    pub overclock_safe_profiles: Option<bool>,
    pub env_flags: Option<EnvironmentFlags>,
    pub overclock_profile: Option<Option<OverclockProfile>>,
    /// The docked slot that the host maps the active overclock profile to.
    pub docked_profile: Option<DockedProfile>,
    pub index_mode: Option<Option<IndexMode>>,
    pub render_opts_enabled: Option<bool>,
}

/// A reading that may be missing or unknown, as one that is simply unknown.
pub open spec fn flatten<T>(value: Option<Option<T>>) -> Option<T> {
    match value {
        Some(inner) => inner,
        None => None,
    }
}

/// The snapshot made from readings: vsync, the pacer and the buffer mode
/// come from the environment flags (triple buffering when `TRIPLE_ENABLED`
/// is set, double otherwise); the docked slot is kept only while the active
/// overclock profile is known; the rest are taken as read.
pub open spec fn snapshot_of(readings: RemoteReadings) -> RemoteSnapshot {
    RemoteSnapshot {
        remote_present: readings.remote_present,
        runtime_status: readings.runtime_status,
        nstuff_status: readings.nstuff_status,
        overclock_safe_profiles: readings.overclock_safe_profiles,
        env_flags: readings.env_flags,
        overclock_profile: flatten(readings.overclock_profile),
        docked_profile: match flatten(readings.overclock_profile) {
            Some(_) => readings.docked_profile,
            None => None,
        },
        vsync_enabled: match readings.env_flags {
            Some(flags) => Some(any_set(flags@, EnvironmentFlags::VSYNC_ENABLED)),
            None => None,
        },
        render_opts_enabled: readings.render_opts_enabled,
        pacer_enabled: match readings.env_flags {
            Some(flags) => Some(any_set(flags@, EnvironmentFlags::PACER_ENABLED)),
            None => None,
        },
        buffer_mode: match readings.env_flags {
            Some(flags) => Some(
                if any_set(flags@, EnvironmentFlags::TRIPLE_ENABLED) {
                    BufferMode::Triple
                } else {
                    BufferMode::Double
                },
            ),
            None => None,
        },
        index_mode: flatten(readings.index_mode),
    }
}

impl RemoteSnapshot {
    /// Makes a snapshot from the remote readings.
    pub fn from_readings(readings: RemoteReadings) -> (snapshot: Self)
        ensures
            snapshot == snapshot_of(readings),
            readings.env_flags matches Some(flags) ==> {
                &&& snapshot.pacer_enabled == Some(flags@ & 128u32 != 0)
                &&& snapshot.vsync_enabled == Some(flags@ & 32u32 != 0)
                &&& snapshot.buffer_mode == Some(
                    if flags@ & 4u32 != 0 {
                        BufferMode::Triple
                    } else {
                        BufferMode::Double
                    },
                )
            },
    {
        proof {
            lemma_flag_values();
        }
        let overclock_profile = match readings.overclock_profile {
            Some(inner) => inner,
            None => None,
        };
        let index_mode = match readings.index_mode {
            Some(inner) => inner,
            None => None,
        };
        let docked_profile = match overclock_profile {
            Some(_) => readings.docked_profile,
            None => None,
        };
        let (vsync_enabled, pacer_enabled, buffer_mode) = match readings.env_flags {
            Some(flags) => (
                Some(flags.contains(EnvironmentFlags::VSYNC_ENABLED)),
                Some(flags.contains(EnvironmentFlags::PACER_ENABLED)),
                Some(
                    if flags.contains(EnvironmentFlags::TRIPLE_ENABLED) {
                        BufferMode::Triple
                    } else {
                        BufferMode::Double
                    },
                ),
            ),
            None => (None, None, None),
        };
        RemoteSnapshot {
            remote_present: readings.remote_present,
            runtime_status: readings.runtime_status,
            nstuff_status: readings.nstuff_status,
            overclock_safe_profiles: readings.overclock_safe_profiles,
            env_flags: readings.env_flags,
            overclock_profile,
            docked_profile,
            vsync_enabled,
            render_opts_enabled: readings.render_opts_enabled,
            pacer_enabled,
            buffer_mode,
            index_mode,
        }
    }
}

/// Refreshing reads the pacer from bit 7 of the flag word, vsync from bit 5
/// and triple buffering from bit 2, and nothing else of the word decides
/// them; without a flag word none of the three is known.
pub proof fn lemma_snapshot_flag_bits(readings: RemoteReadings)
    ensures
        readings.env_flags matches Some(flags) ==> {
            &&& snapshot_of(readings).pacer_enabled == Some((flags@ >> 7u32) & 1u32 == 1u32)
            &&& snapshot_of(readings).vsync_enabled == Some((flags@ >> 5u32) & 1u32 == 1u32)
            &&& snapshot_of(readings).buffer_mode == Some(
                if (flags@ >> 2u32) & 1u32 == 1u32 {
                    BufferMode::Triple
                } else {
                    BufferMode::Double
                },
            )
        },
        readings.env_flags is None ==> {
            &&& snapshot_of(readings).pacer_enabled is None
            &&& snapshot_of(readings).vsync_enabled is None
            &&& snapshot_of(readings).buffer_mode is None
        },
{
    lemma_flag_values();
    if let Some(flags) = readings.env_flags {
        let x = flags@;
        assert((x & 128u32 != 0) == ((x >> 7u32) & 1u32 == 1u32) && (x & 32u32 != 0) == ((x
            >> 5u32) & 1u32 == 1u32) && (x & 4u32 != 0) == ((x >> 2u32) & 1u32 == 1u32))
            by (bit_vector);
    }
}

/// Refreshing keeps what it does not derive from the flag word as it was
/// read; an overclock profile or index mode that was read but not recognised
/// is unknown, and the docked slot is kept only with a known profile.
pub proof fn lemma_snapshot_keeps_readings(readings: RemoteReadings)
    ensures
        snapshot_of(readings).remote_present == readings.remote_present,
        snapshot_of(readings).runtime_status == readings.runtime_status,
        snapshot_of(readings).nstuff_status == readings.nstuff_status,
        snapshot_of(readings).overclock_safe_profiles == readings.overclock_safe_profiles,
        snapshot_of(readings).env_flags == readings.env_flags,
        snapshot_of(readings).render_opts_enabled == readings.render_opts_enabled,
        readings.overclock_profile matches Some(Some(profile)) ==> {
            &&& snapshot_of(readings).overclock_profile == Some(profile)
            &&& snapshot_of(readings).docked_profile == readings.docked_profile
        },
        !(readings.overclock_profile matches Some(Some(_))) ==> {
            &&& snapshot_of(readings).overclock_profile is None
            &&& snapshot_of(readings).docked_profile is None
        },
        readings.index_mode matches Some(Some(mode)) ==> snapshot_of(readings).index_mode == Some(
            mode,
        ),
        !(readings.index_mode matches Some(Some(_))) ==> snapshot_of(readings).index_mode is None,
{
}

/// Two flag words that agree on bit 7 give the same pacer reading, however
/// the other bits differ; the same holds of vsync and bit 5.
pub proof fn lemma_snapshot_pacer_ignores_other_bits(a: RemoteReadings, b: RemoteReadings)
    requires
        a.env_flags is Some,
        b.env_flags is Some,
    ensures
        a.env_flags->0@ & 128u32 == b.env_flags->0@ & 128u32 ==> snapshot_of(a).pacer_enabled
            == snapshot_of(b).pacer_enabled,
        a.env_flags->0@ & 32u32 == b.env_flags->0@ & 32u32 ==> snapshot_of(a).vsync_enabled
            == snapshot_of(b).vsync_enabled,
{
    lemma_flag_values();
}

/// Whether the snapshot's flags are the old ones with `bits` applied.
pub open spec fn flags_updated(
    new: Option<EnvironmentFlags>,
    old: Option<EnvironmentFlags>,
    bits: spec_fn(u32) -> u32,
) -> bool {
    match old {
        Some(f) => new matches Some(g) && g@ == bits(f@),
        None => new is None,
    }
}


/// The verbose summary line logged by a refresh.
pub open spec fn snapshot_line(s: RemoteSnapshot) -> Seq<char> {
    "snapshot: remote="@ + on_off_text(s.remote_present) + " runtime="@ + option_bool_text(
        s.runtime_status,
    ) + " profile="@ + option_overclock_preset_text(s.overclock_safe_profiles) + ":"@
        + option_overclock_profile_text(s.overclock_profile) + " uv="@ + option_uv_state_text(
        s.nstuff_status,
    ) + " gpu_mv="@ + option_uv_gpu_mv_text(s.nstuff_status) + " vsync="@ + option_bool_text(
        s.vsync_enabled,
    ) + " render_opts="@ + option_bool_text(s.render_opts_enabled) + " pacer="@
        + option_bool_text(s.pacer_enabled) + " buffer="@ + option_buffer_mode_text(s.buffer_mode)
        + " index="@ + option_index_mode_text(s.index_mode)
}

/// The log after a new snapshot: a notice when the runtime appeared or
/// disappeared, then with `verbose` the summary line.
pub open spec fn log_after_snapshot(
    log: Seq<Seq<char>>,
    previous: RemoteSnapshot,
    snapshot: RemoteSnapshot,
    verbose: bool,
) -> Seq<Seq<char>> {
    let noticed = if previous.remote_present != snapshot.remote_present {
        pushed(log, presence_line(snapshot.remote_present))
    } else {
        log
    };
    if verbose {
        pushed(noticed, snapshot_line(snapshot))
    } else {
        noticed
    }
}

/// The index of the first zero byte of `buffer`, or its length.
pub open spec fn text_end(buffer: Seq<u8>) -> int
    decreases buffer.len(),
{
    if buffer.len() == 0 || buffer[0] == 0 {
        0
    } else {
        1 + text_end(buffer.drop_first())
    }
}

/// The command typed into the input buffer: the bytes before the first zero
/// byte, decoded as UTF-8 with invalid sequences replaced, then trimmed.
pub open spec fn command_text(buffer: Seq<u8>) -> Seq<char> {
    trim(utf8_lossy(buffer.take(text_end(buffer))))
}

/// The counter after one more frame, wrapping at `u32::MAX`.
pub open spec fn next_frame(counter: u32) -> u32 {
    if counter == u32::MAX {
        0
    } else {
        (counter + 1) as u32
    }
}

/// Whether a frame refreshes the snapshot: the first frame and every
/// `AUTO_REFRESH_FRAMES`-th one.
pub open spec fn refresh_due(counter: u32) -> bool {
    counter == 1 || counter % AUTO_REFRESH_FRAMES == 0
}

/// The text lines of the console's runtime section.
pub open spec fn runtime_lines_of(state: &ConsoleState) -> Seq<Seq<char>> {
    seq![
        "ultelier debug console is running inside libultelier.nro"@,
        "toggle: ZL + ZR + DPad-Down"@,
        "ssbusync symbols present: "@ + on_off_text(state.snapshot.remote_present),
        "runtime initialized: "@ + option_bool_text(state.snapshot.runtime_status),
        "overclock preset: "@ + option_overclock_preset_text(state.snapshot.overclock_safe_profiles) + " | active profile: "@ + option_overclock_profile_text(state.snapshot.overclock_profile) + " | docked slot: "@ + option_docked_profile_text(state.snapshot.docked_profile),
        "nx-over: "@ + option_nstuff_enabled_text(state.snapshot.nstuff_status) + " | title_match="@ + option_nstuff_title_match_text(state.snapshot.nstuff_status) + " | poll="@ + option_nstuff_poll_interval_text(state.snapshot.nstuff_status) + "ms | power profile="@ + option_nstuff_profile_text(state.snapshot.nstuff_status),
        "undervolt: "@ + option_uv_enabled_text(state.snapshot.nstuff_status) + " | state: "@ + option_uv_state_text(state.snapshot.nstuff_status) + " | cpu mode: "@ + option_uv_cpu_mode_text(state.snapshot.nstuff_status) + " | gpu mv: "@ + option_uv_gpu_mv_text(state.snapshot.nstuff_status),
        "callbacks registered: "@ + on_off_text(state.callbacks_registered),
        "vsync: "@ + option_bool_text(state.snapshot.vsync_enabled) + " | render_opts: "@ + option_bool_text(state.snapshot.render_opts_enabled) + " | pacer: "@ + option_bool_text(state.snapshot.pacer_enabled) + " | buffer: "@ + option_buffer_mode_text(state.snapshot.buffer_mode),
        "index mode: "@ + option_index_mode_text(state.snapshot.index_mode),
        "env flags: "@ + env_flags_text(state.snapshot.env_flags),
        "swapping_buffer="@ + option_flag_text(state.snapshot.env_flags, EnvironmentFlags::SWAPPING_BUFFER) + " swapping_index="@ + option_flag_text(state.snapshot.env_flags, EnvironmentFlags::SWAPPING_INDEX) + " triple="@ + option_flag_text(state.snapshot.env_flags, EnvironmentFlags::TRIPLE_ENABLED) + " index_mode="@ + option_index_mode_field_text(state.snapshot.env_flags),
        "vsync="@ + option_flag_text(state.snapshot.env_flags, EnvironmentFlags::VSYNC_ENABLED) + " render_opts="@ + option_flag_text(state.snapshot.env_flags, EnvironmentFlags::RENDER_OPTS_ENABLED) + " pacer="@ + option_flag_text(state.snapshot.env_flags, EnvironmentFlags::PACER_ENABLED) + " profiling="@ + option_flag_text(state.snapshot.env_flags, EnvironmentFlags::PROFILING_ENABLED) + " slow_pacer_bias="@ + option_flag_text(state.snapshot.env_flags, EnvironmentFlags::SLOW_PACER_BIAS) + " overclocker="@ + option_flag_text(state.snapshot.env_flags, EnvironmentFlags::OVERCLOCKER),
    ]
}

/// The environment flags in hexadecimal, or `unavailable`.
pub open spec fn env_flags_text(flags: Option<EnvironmentFlags>) -> Seq<char> {
    match flags {
        Some(f) => "0x"@ + hex8(f@),
        None => "unavailable"@,
    }
}

/// The actions that a drawn frame performs: none while the console is hidden
/// or its window did not open; otherwise the due refresh first, then what
/// the window's controls asked for.
pub open spec fn frame_actions_of(
    visible: bool,
    refresh: bool,
    window_open: bool,
    panel: Seq<Action>,
) -> Seq<Action> {
    if visible && window_open {
        if refresh {
            seq![Action::Refresh { verbose: false }] + panel
        } else {
            panel
        }
    } else {
        Seq::empty()
    }
}

impl ConsoleState {
    /// A hidden console with the mouse and auto-scroll on, and the two
    /// greeting lines in its log.
    pub fn new() -> (state: Self)
        ensures
            state.snapshot == RemoteSnapshot::spec_unknown(),
            state.command_buffer@ == Seq::new(256, |i: int| 0u8),
            state.log@ == seq![
                "console ready: host requires imgui-smash and ssbusync to be loaded"@,
                "toggle with ZL + ZR + DPad-Down"@,
            ],
            state.log.is_dirty(),
            !state.callbacks_registered,
            !state.visible,
            state.show_mouse,
            state.auto_scroll,
            state.frame_counter == 0,
            !state.prev_toggle_combo_held,
    {
        let mut state = ConsoleState {
            snapshot: RemoteSnapshot::unknown(),
            command_buffer: [0u8; 256],
            log: ConsoleLog::new(),
            callbacks_registered: false,
            visible: false,
            show_mouse: true,
            auto_scroll: true,
            frame_counter: 0,
            prev_toggle_combo_held: false,
        };
        assert(state.command_buffer@ =~= Seq::new(256, |i: int| 0u8));
        state.push_log(owned("console ready: host requires imgui-smash and ssbusync to be loaded"));
        state.push_log(owned("toggle with ZL + ZR + DPad-Down"));
        assert(state.log@ =~= seq![
            "console ready: host requires imgui-smash and ssbusync to be loaded"@,
            "toggle with ZL + ZR + DPad-Down"@,
        ]);
        state
    }

    /// Appends a line to the log.
    pub fn push_log(&mut self, line: String)
        ensures
            final(self).log@ == pushed(old(self).log@, line@),
            final(self).log.is_dirty(),
            same_but_log_and_mouse(&*final(self), &*old(self)),
            final(self).show_mouse == old(self).show_mouse,
    {
        self.log.push(line);
    }

    /// Empties the log and notes that it was cleared.
    pub fn clear_log(&mut self)
        ensures
            final(self).log@ == seq!["log cleared"@],
            final(self).log.is_dirty(),
            same_but_log_and_mouse(&*final(self), &*old(self)),
            final(self).show_mouse == old(self).show_mouse,
    {
        self.log.clear();
        self.push_log(owned("log cleared"));
    }

    /// Routes an action: clearing the log and running a command are done
    /// here; every other action is handed back for the host to perform.
    pub fn perform_action(&mut self, action: Action) -> (remote: Option<Action>)
        ensures
            match action {
                Action::ClearLog => {
                    &&& final(self).log@ == seq!["log cleared"@]
                    &&& final(self).log.is_dirty()
                    &&& same_but_log_and_mouse(&*final(self), &*old(self))
                    &&& final(self).show_mouse == old(self).show_mouse
                    &&& remote is None
                },
                Action::RunCommand(input) => {
                    &&& final(self).log@ == log_after_command(old(self).log@, input@)
                    &&& final(self).log.is_dirty() == (command_of(input@) != Command::Empty || old(
                        self,
                    ).log.is_dirty())
                    &&& final(self).show_mouse == show_mouse_after_command(
                        old(self).show_mouse,
                        input@,
                    )
                    &&& same_but_log_and_mouse(&*final(self), &*old(self))
                    &&& remote == command_action(command_of(input@))
                },
                _ => {
                    &&& final(self).log@ == old(self).log@
                    &&& final(self).log.is_dirty() == old(self).log.is_dirty()
                    &&& same_but_log_and_mouse(&*final(self), &*old(self))
                    &&& final(self).show_mouse == old(self).show_mouse
                    &&& remote == Some(action)
                },
            },
    {
        match action {
            Action::ClearLog => {
                self.clear_log();
                None
            },
            Action::RunCommand(input) => self.run_command(input.as_str()),
            other => Some(other),
        }
    }

    /// Logs the reply to a setter action as `call(argument) -> outcome`;
    /// other actions log nothing.
    pub fn record_guest_call(&mut self, action: &Action, result: Option<bool>)
        ensures
            final(self).log@ == (match guest_call_line(*action, result) {
                Some(line) => pushed(old(self).log@, line),
                None => old(self).log@,
            }),
            final(self).log.is_dirty() == (guest_call_line(*action, result) is Some || old(
                self,
            ).log.is_dirty()),
            same_but_log_and_mouse(&*final(self), &*old(self)),
            final(self).show_mouse == old(self).show_mouse,
    {
        match action {
            Action::SetVsync(on) => self.push_log(call_line("set_vsync_enabled(", on_off(*on), result)),
            Action::SetRenderOpts(on) => self.push_log(
                call_line("set_render_opts_enabled(", on_off(*on), result),
            ),
            Action::SetPacer(on) => self.push_log(call_line("set_pacer_enabled(", on_off(*on), result)),
            Action::SetBufferMode(mode) => self.push_log(
                call_line("set_buffer_mode(", buffer_mode_name(*mode), result),
            ),
            Action::SetIndexMode(mode) => self.push_log(
                call_line("set_index_mode(", index_mode_name(*mode), result),
            ),
            _ => {},
        }
    }

    /// Decides whether to register the typed callbacks now: not when the
    /// runtime is absent (which also forgets an earlier registration), and
    /// not when they are registered already. With `verbose`, a skipped
    /// registration is logged.
    pub fn maybe_register_callbacks(&mut self, remote_present: bool, verbose: bool) -> (register:
        bool)
        ensures
            register == (remote_present && !old(self).callbacks_registered),
            final(self).callbacks_registered == (remote_present && old(self).callbacks_registered),
            final(self).log@ == (if !remote_present && verbose {
                pushed(
                    old(self).log@,
                    "ssbusync symbols are not present; callback registration skipped"@,
                )
            } else if remote_present && old(self).callbacks_registered && verbose {
                pushed(old(self).log@, "callbacks already registered"@)
            } else {
                old(self).log@
            }),
            final(self).log.is_dirty() == (verbose && (!remote_present || old(
                self,
            ).callbacks_registered) || old(self).log.is_dirty()),
            final(self).snapshot == old(self).snapshot,
            final(self).command_buffer@ == old(self).command_buffer@,
            final(self).visible == old(self).visible,
            final(self).show_mouse == old(self).show_mouse,
            final(self).auto_scroll == old(self).auto_scroll,
            final(self).frame_counter == old(self).frame_counter,
            final(self).prev_toggle_combo_held == old(self).prev_toggle_combo_held,
    {
        if !remote_present {
            self.callbacks_registered = false;
            if verbose {
                self.push_log(owned("ssbusync symbols are not present; callback registration skipped"));
            }
            return false;
        }
        if self.callbacks_registered {
            if verbose {
                self.push_log(owned("callbacks already registered"));
            }
            return false;
        }
        true
    }

    /// Records the outcome of registering the four typed callbacks
    /// (vsync, render-opts, buffer mode, index mode): they count as
    /// registered only when all four were accepted.
    pub fn finish_callback_registration(
        &mut self,
        vsync_ok: bool,
        render_ok: bool,
        buffer_ok: bool,
        index_ok: bool,
    )
        ensures
            final(self).callbacks_registered == (vsync_ok && render_ok && buffer_ok && index_ok),
            final(self).log@ == pushed(
                old(self).log@,
                if vsync_ok && render_ok && buffer_ok && index_ok {
                    "registered ssbusync typed callbacks"@
                } else {
                    "failed to register one or more ssbusync callbacks"@
                },
            ),
            final(self).log.is_dirty(),
            final(self).snapshot == old(self).snapshot,
            final(self).command_buffer@ == old(self).command_buffer@,
            final(self).visible == old(self).visible,
            final(self).show_mouse == old(self).show_mouse,
            final(self).auto_scroll == old(self).auto_scroll,
            final(self).frame_counter == old(self).frame_counter,
            final(self).prev_toggle_combo_held == old(self).prev_toggle_combo_held,
    {
        let ok = vsync_ok && render_ok && buffer_ok && index_ok;
        self.callbacks_registered = ok;
        if ok {
            self.push_log(owned("registered ssbusync typed callbacks"));
        } else {
            self.push_log(owned("failed to register one or more ssbusync callbacks"));
        }
    }

    /// Notification: vsync was switched.
    pub fn on_vsync_changed(&mut self, enabled: bool)
        ensures
            final(self).snapshot == (RemoteSnapshot {
                vsync_enabled: Some(enabled),
                env_flags: final(self).snapshot.env_flags,
                ..old(self).snapshot
            }),
            flags_updated(
                final(self).snapshot.env_flags,
                old(self).snapshot.env_flags,
                |bits: u32| with_mask(bits, EnvironmentFlags::VSYNC_ENABLED, enabled),
            ),
            final(self).log@ == pushed(old(self).log@, "event: vsync -> "@ + on_off_text(enabled)),
            final(self).snapshot.env_flags matches Some(f) ==> any_set(f@, EnvironmentFlags::VSYNC_ENABLED) == enabled,
            final(self).log.is_dirty(),
            same_flags_but_snapshot_and_log(&*final(self), &*old(self)),
    {
        proof {
            lemma_flag_values();
            if let Some(f) = old(self).snapshot.env_flags {
                lemma_with_then_contains(f@, EnvironmentFlags::VSYNC_ENABLED, enabled);
            }
        }
        self.snapshot.vsync_enabled = Some(enabled);
        if let Some(flags) = self.snapshot.env_flags {
            self.snapshot.env_flags = Some(flags.with(EnvironmentFlags::VSYNC_ENABLED, enabled));
        }
        self.push_log(joined("event: vsync -> ", on_off(enabled)));
    }

    /// Notification: the render optimizations were switched.
    pub fn on_render_opts_changed(&mut self, enabled: bool)
        ensures
            final(self).snapshot == (RemoteSnapshot {
                render_opts_enabled: Some(enabled),
                env_flags: final(self).snapshot.env_flags,
                ..old(self).snapshot
            }),
            flags_updated(
                final(self).snapshot.env_flags,
                old(self).snapshot.env_flags,
                |bits: u32| with_mask(bits, EnvironmentFlags::RENDER_OPTS_ENABLED, enabled),
            ),
            final(self).log@ == pushed(
                old(self).log@,
                "event: render_opts -> "@ + on_off_text(enabled),
            ),
            final(self).snapshot.env_flags matches Some(f) ==> any_set(f@, EnvironmentFlags::RENDER_OPTS_ENABLED) == enabled,
            final(self).log.is_dirty(),
            same_flags_but_snapshot_and_log(&*final(self), &*old(self)),
    {
        proof {
            lemma_flag_values();
            if let Some(f) = old(self).snapshot.env_flags {
                lemma_with_then_contains(f@, EnvironmentFlags::RENDER_OPTS_ENABLED, enabled);
            }
        }
        self.snapshot.render_opts_enabled = Some(enabled);
        if let Some(flags) = self.snapshot.env_flags {
            self.snapshot.env_flags = Some(flags.with(EnvironmentFlags::RENDER_OPTS_ENABLED, enabled));
        }
        self.push_log(joined("event: render_opts -> ", on_off(enabled)));
    }

    /// Notification: the buffer mode changed; the flags' triple-buffer bit
    /// follows it.
    pub fn on_buffer_mode_changed(&mut self, mode: BufferMode)
        ensures
            final(self).snapshot == (RemoteSnapshot {
                buffer_mode: Some(mode),
                env_flags: final(self).snapshot.env_flags,
                ..old(self).snapshot
            }),
            flags_updated(
                final(self).snapshot.env_flags,
                old(self).snapshot.env_flags,
                |bits: u32| with_mask(bits, EnvironmentFlags::TRIPLE_ENABLED, mode == BufferMode::Triple),
            ),
            final(self).log@ == pushed(
                old(self).log@,
                "event: buffer -> "@ + buffer_mode_name_text(mode),
            ),
            final(self).snapshot.env_flags matches Some(f) ==> any_set(f@, EnvironmentFlags::TRIPLE_ENABLED) == (mode == BufferMode::Triple),
            final(self).log.is_dirty(),
            same_flags_but_snapshot_and_log(&*final(self), &*old(self)),
    {
        proof {
            lemma_flag_values();
            if let Some(f) = old(self).snapshot.env_flags {
                lemma_with_then_contains(f@, EnvironmentFlags::TRIPLE_ENABLED, mode == BufferMode::Triple);
            }
        }
        self.snapshot.buffer_mode = Some(mode);
        if let Some(flags) = self.snapshot.env_flags {
            let triple = match mode {
                BufferMode::Triple => true,
                BufferMode::Double => false,
            };
            self.snapshot.env_flags = Some(flags.with(EnvironmentFlags::TRIPLE_ENABLED, triple));
        }
        self.push_log(joined("event: buffer -> ", buffer_mode_name(mode)));
    }

    /// Notification: the index mode changed; the flags' index-mode field
    /// follows it.
    pub fn on_index_mode_changed(&mut self, mode: IndexMode)
        ensures
            final(self).snapshot == (RemoteSnapshot {
                index_mode: Some(mode),
                env_flags: final(self).snapshot.env_flags,
                ..old(self).snapshot
            }),
            flags_updated(
                final(self).snapshot.env_flags,
                old(self).snapshot.env_flags,
                |bits: u32| with_field(bits, EnvironmentFlags::INDEX_MODE, index_mode_value(mode)),
            ),
            final(self).log@ == pushed(
                old(self).log@,
                "event: index mode -> "@ + index_mode_name_text(mode),
            ),
            final(self).snapshot.env_flags matches Some(f) ==> index_mode_of(field_of(f@, EnvironmentFlags::INDEX_MODE)) == Some(mode),
            final(self).log.is_dirty(),
            same_flags_but_snapshot_and_log(&*final(self), &*old(self)),
    {
        proof {
            if let Some(f) = old(self).snapshot.env_flags {
                lemma_index_field_round_trip(f@, index_mode_value(mode));
            }
        }
        proof {
            lemma_index_field_shift();
        }
        self.snapshot.index_mode = Some(mode);
        if let Some(flags) = self.snapshot.env_flags {
            self.snapshot.env_flags = Some(
                flags.with_value(EnvironmentFlags::INDEX_MODE, mode.to_u32()),
            );
        }
        self.push_log(joined("event: index mode -> ", index_mode_name(mode)));
    }

    /// Takes a new snapshot; logs when the runtime appeared or disappeared,
    /// and with `verbose` a summary.
    pub fn apply_snapshot(&mut self, snapshot: RemoteSnapshot, verbose: bool)
        ensures
            final(self).snapshot == snapshot,
            final(self).log@ == log_after_snapshot(
                old(self).log@,
                old(self).snapshot,
                snapshot,
                verbose,
            ),
            final(self).log.is_dirty() == (old(self).snapshot.remote_present
                != snapshot.remote_present || verbose || old(self).log.is_dirty()),
            same_flags_but_snapshot_and_log(&*final(self), &*old(self)),
    {
        let previous_present = self.snapshot.remote_present;
        self.snapshot = snapshot;
        if previous_present != snapshot.remote_present {
            self.push_log(joined("ssbusync presence changed -> ", on_off(snapshot.remote_present)));
        }
        if verbose {
            let mut line = String::from_str("snapshot: remote=");
            line.append(on_off(snapshot.remote_present));
            line.append(" runtime=");
            line.append(option_bool(snapshot.runtime_status));
            line.append(" profile=");
            line.append(option_overclock_preset(snapshot.overclock_safe_profiles));
            line.append(":");
            line.append(option_overclock_profile(snapshot.overclock_profile));
            line.append(" uv=");
            line.append(option_uv_state(snapshot.nstuff_status));
            line.append(" gpu_mv=");
            let gpu_mv = option_uv_gpu_mv(snapshot.nstuff_status);
            line.append(gpu_mv.as_str());
            line.append(" vsync=");
            line.append(option_bool(snapshot.vsync_enabled));
            line.append(" render_opts=");
            line.append(option_bool(snapshot.render_opts_enabled));
            line.append(" pacer=");
            line.append(option_bool(snapshot.pacer_enabled));
            line.append(" buffer=");
            line.append(option_buffer_mode(snapshot.buffer_mode));
            line.append(" index=");
            line.append(option_index_mode(snapshot.index_mode));
            assert(line@ =~= snapshot_line(snapshot));
            self.push_log(line);
        }
    }

    /// Counts one more drawn frame and tells whether to refresh.
    pub fn advance_frame(&mut self) -> (refresh: bool)
        ensures
            final(self).frame_counter == next_frame(old(self).frame_counter),
            refresh == refresh_due(final(self).frame_counter),
            final(self).log@ == old(self).log@,
            final(self).log.is_dirty() == old(self).log.is_dirty(),
            final(self).snapshot == old(self).snapshot,
            final(self).command_buffer@ == old(self).command_buffer@,
            final(self).callbacks_registered == old(self).callbacks_registered,
            final(self).visible == old(self).visible,
            final(self).show_mouse == old(self).show_mouse,
            final(self).auto_scroll == old(self).auto_scroll,
            final(self).prev_toggle_combo_held == old(self).prev_toggle_combo_held,
    {
        self.frame_counter = if self.frame_counter == u32::MAX {
            0
        } else {
            self.frame_counter + 1
        };
        self.frame_counter == 1 || self.frame_counter % AUTO_REFRESH_FRAMES == 0
    }

    /// The actions a drawn frame performs, given whether a refresh is due,
    /// whether the console's window opened, and the actions its controls
    /// asked for.
    pub fn frame_actions(&self, refresh: bool, window_open: bool, panel: Vec<Action>) -> (actions:
        Vec<Action>)
        ensures
            actions@ == frame_actions_of(self.visible, refresh, window_open, panel@),
    {
        if !(self.visible && window_open) {
            return Vec::new();
        }
        let mut actions = panel;
        if refresh {
            actions.insert(0, Action::Refresh { verbose: false });
            assert(actions@ =~= seq![Action::Refresh { verbose: false }] + panel@);
        }
        actions
    }

    /// Whether the mouse cursor is shown: only while the console is visible
    /// and the mouse setting is on.
    pub fn mouse_shown(&self) -> (shown: bool)
        ensures
            shown == (self.visible && self.show_mouse),
    {
        self.visible && self.show_mouse
    }

    /// Feeds whether the toggle combination is held this frame. Pressing it
    /// (held now, not held before) flips visibility and logs it; the result
    /// is whether the console was just opened.
    pub fn poll_visibility_toggle(&mut self, held: bool) -> (opened: bool)
        ensures
            final(self).prev_toggle_combo_held == held,
            final(self).visible == (old(self).visible != (held && !old(
                self,
            ).prev_toggle_combo_held)),
            opened == (held && !old(self).prev_toggle_combo_held && !old(self).visible),
            final(self).log@ == (if held && !old(self).prev_toggle_combo_held {
                pushed(old(self).log@, "console visibility -> "@ + on_off_text(final(self).visible))
            } else {
                old(self).log@
            }),
            final(self).log.is_dirty() == (held && !old(self).prev_toggle_combo_held || old(
                self,
            ).log.is_dirty()),
            final(self).snapshot == old(self).snapshot,
            final(self).command_buffer@ == old(self).command_buffer@,
            final(self).callbacks_registered == old(self).callbacks_registered,
            final(self).show_mouse == old(self).show_mouse,
            final(self).auto_scroll == old(self).auto_scroll,
            final(self).frame_counter == old(self).frame_counter,
    {
        let rising_edge = held && !self.prev_toggle_combo_held;
        self.prev_toggle_combo_held = held;
        if !rising_edge {
            return false;
        }
        self.visible = !self.visible;
        let visible = self.visible;
        self.push_log(joined("console visibility -> ", on_off(visible)));
        visible
    }

    /// Reads the command typed into the input buffer and empties the
    /// buffer; a command that is blank once trimmed is dropped.
    pub fn take_command(&mut self) -> (command: Option<String>)
        ensures
            final(self).command_buffer@ == Seq::new(256, |i: int| 0u8),
            command is Some <==> command_text(old(self).command_buffer@).len() > 0,
            command matches Some(text) ==> text@ == command_text(old(self).command_buffer@),
            final(self).log@ == old(self).log@,
            final(self).log.is_dirty() == old(self).log.is_dirty(),
            final(self).snapshot == old(self).snapshot,
            final(self).callbacks_registered == old(self).callbacks_registered,
            final(self).visible == old(self).visible,
            final(self).show_mouse == old(self).show_mouse,
            final(self).auto_scroll == old(self).auto_scroll,
            final(self).frame_counter == old(self).frame_counter,
            final(self).prev_toggle_combo_held == old(self).prev_toggle_combo_held,
    {
        let text = read_command_buffer(&self.command_buffer);
        self.command_buffer = [0u8; 256];
        assert(self.command_buffer@ =~= Seq::new(256, |i: int| 0u8));
        if text.as_str().unicode_len() == 0 {
            None
        } else {
            Some(text)
        }
    }

    /// The text lines of the runtime section: the runtime's presence and
    /// status, overclock and NsTuff state, the switches, the buffer and
    /// index modes, and the environment flags bit by bit.
    pub fn runtime_lines(&self) -> (lines: Vec<String>)
        ensures
            lines@.map_values(|line: String| line@) == runtime_lines_of(self),
    {
        let s = &self.snapshot;
        let mut lines: Vec<String> = Vec::new();
        let mut line = String::from_str("ultelier debug console is running inside libultelier.nro");
        assert(line@ =~= runtime_lines_of(self)[0]);
        lines.push(line);
        let mut line = String::from_str("toggle: ZL + ZR + DPad-Down");
        assert(line@ =~= runtime_lines_of(self)[1]);
        lines.push(line);
        let mut line = String::from_str("ssbusync symbols present: ");
        line.append(on_off(s.remote_present));
        assert(line@ =~= runtime_lines_of(self)[2]);
        lines.push(line);
        let mut line = String::from_str("runtime initialized: ");
        line.append(option_bool(s.runtime_status));
        assert(line@ =~= runtime_lines_of(self)[3]);
        lines.push(line);
        let mut line = String::from_str("overclock preset: ");
        line.append(option_overclock_preset(s.overclock_safe_profiles));
        line.append(" | active profile: ");
        line.append(option_overclock_profile(s.overclock_profile));
        line.append(" | docked slot: ");
        line.append(option_docked_profile(s.docked_profile));
        assert(line@ =~= runtime_lines_of(self)[4]);
        lines.push(line);
        let mut line = String::from_str("nx-over: ");
        line.append(option_nstuff_enabled(s.nstuff_status));
        line.append(" | title_match=");
        line.append(option_nstuff_title_match(s.nstuff_status));
        line.append(" | poll=");
        let part = option_nstuff_poll_interval(s.nstuff_status);
        line.append(part.as_str());
        line.append("ms | power profile=");
        line.append(option_nstuff_profile(s.nstuff_status));
        assert(line@ =~= runtime_lines_of(self)[5]);
        lines.push(line);
        let mut line = String::from_str("undervolt: ");
        line.append(option_uv_enabled(s.nstuff_status));
        line.append(" | state: ");
        line.append(option_uv_state(s.nstuff_status));
        line.append(" | cpu mode: ");
        let part = option_uv_cpu_mode(s.nstuff_status);
        line.append(part.as_str());
        line.append(" | gpu mv: ");
        let part = option_uv_gpu_mv(s.nstuff_status);
        line.append(part.as_str());
        assert(line@ =~= runtime_lines_of(self)[6]);
        lines.push(line);
        let mut line = String::from_str("callbacks registered: ");
        line.append(on_off(self.callbacks_registered));
        assert(line@ =~= runtime_lines_of(self)[7]);
        lines.push(line);
        let mut line = String::from_str("vsync: ");
        line.append(option_bool(s.vsync_enabled));
        line.append(" | render_opts: ");
        line.append(option_bool(s.render_opts_enabled));
        line.append(" | pacer: ");
        line.append(option_bool(s.pacer_enabled));
        line.append(" | buffer: ");
        line.append(option_buffer_mode(s.buffer_mode));
        assert(line@ =~= runtime_lines_of(self)[8]);
        lines.push(line);
        let mut line = String::from_str("index mode: ");
        line.append(option_index_mode(s.index_mode));
        assert(line@ =~= runtime_lines_of(self)[9]);
        lines.push(line);
        let mut line = String::from_str("env flags: ");
        match s.env_flags {
            Some(flags) => {
                let hex = hex_string(flags.bits());
                line.append(hex.as_str());
            },
            None => line.append("unavailable"),
        }
        assert(line@ =~= runtime_lines_of(self)[10]);
        lines.push(line);
        let mut line = String::from_str("swapping_buffer=");
        line.append(option_flag(s.env_flags, EnvironmentFlags::SWAPPING_BUFFER));
        line.append(" swapping_index=");
        line.append(option_flag(s.env_flags, EnvironmentFlags::SWAPPING_INDEX));
        line.append(" triple=");
        line.append(option_flag(s.env_flags, EnvironmentFlags::TRIPLE_ENABLED));
        line.append(" index_mode=");
        line.append(option_index_mode_field(s.env_flags));
        assert(line@ =~= runtime_lines_of(self)[11]);
        lines.push(line);
        let mut line = String::from_str("vsync=");
        line.append(option_flag(s.env_flags, EnvironmentFlags::VSYNC_ENABLED));
        line.append(" render_opts=");
        line.append(option_flag(s.env_flags, EnvironmentFlags::RENDER_OPTS_ENABLED));
        line.append(" pacer=");
        line.append(option_flag(s.env_flags, EnvironmentFlags::PACER_ENABLED));
        line.append(" profiling=");
        line.append(option_flag(s.env_flags, EnvironmentFlags::PROFILING_ENABLED));
        line.append(" slow_pacer_bias=");
        line.append(option_flag(s.env_flags, EnvironmentFlags::SLOW_PACER_BIAS));
        line.append(" overclocker=");
        line.append(option_flag(s.env_flags, EnvironmentFlags::OVERCLOCKER));
        assert(line@ =~= runtime_lines_of(self)[12]);
        lines.push(line);
        assert(lines@.map_values(|line: String| line@) =~= runtime_lines_of(self));
        lines
    }

    /// Runs one line of console input: blank input does nothing, `clear`
    /// clears the log, every other line is echoed and then handled. Local
    /// commands are done here; the action that needs the host is returned.
    pub fn run_command(&mut self, input: &str) -> (action: Option<Action>)
        ensures
            final(self).log@ == log_after_command(old(self).log@, input@),
            final(self).log.is_dirty() == (command_of(input@) != Command::Empty || old(
                self,
            ).log.is_dirty()),
            final(self).show_mouse == show_mouse_after_command(old(self).show_mouse, input@),
            same_but_log_and_mouse(&*final(self), &*old(self)),
            action == command_action(command_of(input@)),
    {
        let command = parse_command(input);
        match command {
            Command::Empty => {
                return None;
            },
            Command::Clear => {
                self.clear_log();
                return None;
            },
            _ => {},
        }
        let chars = chars_of(input);
        let (start, end) = trim_bounds(&chars);
        let ghost before = self.log@;
        self.push_log(joined("> ", input.substring_char(start, end)));
        let ghost echoed = self.log@;
        let ghost echo = echo_line(trim(input@));
        assert(echoed == pushed(before, echo));
        let action = match command {
            Command::Help => {
                self.push_log(owned("help: refresh | clear | callbacks"));
                self.push_log(owned("help: mouse on/off"));
                self.push_log(owned("help: vsync on/off | render on/off | pacer on/off"));
                self.push_log(owned("help: buffer double/triple"));
                self.push_log(owned("help: index immediate/onebehind/twobehind"));
                proof {
                    let lines = seq![echo] + help_lines();
                    reveal_with_fuel(pushed_all, 7);
                    assert(lines.drop_first() =~= help_lines());
                    assert(lines[0] == echo);
                    assert(help_lines().drop_first().drop_first().drop_first().drop_first().drop_first()
                        =~= Seq::<Seq<char>>::empty());
                }
                None
            },
            Command::Refresh => Some(Action::Refresh { verbose: true }),
            Command::Callbacks => Some(Action::RegisterCallbacks),
            Command::Mouse(on) => {
                self.show_mouse = on;
                self.push_log(joined("show_mouse -> ", on_off(on)));
                None
            },
            Command::Vsync(on) => Some(Action::SetVsync(on)),
            Command::RenderOpts(on) => Some(Action::SetRenderOpts(on)),
            Command::Pacer(on) => Some(Action::SetPacer(on)),
            Command::Buffer(mode) => Some(Action::SetBufferMode(mode)),
            Command::Index(mode) => Some(Action::SetIndexMode(mode)),
            Command::Invalid(complaint) => {
                self.push_log(joined("error: ", complaint.message()));
                None
            },
            _ => None,
        };
        proof {
            let lines = seq![echo] + command_replies(command);
            assert(lines.drop_first() =~= command_replies(command));
            if command_replies(command).len() == 0 {
                assert(pushed_all(echoed, command_replies(command)) == echoed);
            } else if command_replies(command).len() == 1 {
                assert(command_replies(command).drop_first() =~= Seq::<Seq<char>>::empty());
            }
            reveal_with_fuel(pushed_all, 3);
        }
        action
    }
}

} // verus!
