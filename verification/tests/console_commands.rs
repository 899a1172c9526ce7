use ultelier::console::command::{parse_command, Command, Complaint};
use ultelier::{BufferMode, IndexMode};

#[test]
fn blank_input_is_empty() {
    assert_eq!(parse_command(""), Command::Empty);
    assert_eq!(parse_command("  \t \n"), Command::Empty);
    assert_eq!(parse_command("\u{3000}"), Command::Empty);
}

#[test]
fn clear_is_whole_line_only() {
    assert_eq!(parse_command("clear"), Command::Clear);
    assert_eq!(parse_command("  CLEAR  "), Command::Clear);
    assert_eq!(parse_command("clear now"), Command::Invalid(Complaint::Unknown));
}

#[test]
fn simple_commands() {
    assert_eq!(parse_command("help"), Command::Help);
    assert_eq!(parse_command("refresh"), Command::Refresh);
    assert_eq!(parse_command("Status"), Command::Refresh);
    assert_eq!(parse_command("callbacks"), Command::Callbacks);
    assert_eq!(parse_command("help me please"), Command::Help);
}

#[test]
fn switch_commands() {
    assert_eq!(parse_command("mouse on"), Command::Mouse(true));
    assert_eq!(parse_command("mouse OFF"), Command::Mouse(false));
    assert_eq!(parse_command("mouse"), Command::Invalid(Complaint::Mouse));
    assert_eq!(parse_command("vsync   off"), Command::Vsync(false));
    assert_eq!(parse_command("vsync maybe"), Command::Invalid(Complaint::Vsync));
    assert_eq!(parse_command("render on"), Command::RenderOpts(true));
    assert_eq!(parse_command("renderopts off"), Command::RenderOpts(false));
    assert_eq!(parse_command("render"), Command::Invalid(Complaint::Render));
    assert_eq!(parse_command("pacer on extra words"), Command::Pacer(true));
    assert_eq!(parse_command("pacer"), Command::Invalid(Complaint::Pacer));
}

#[test]
fn mode_commands() {
    assert_eq!(parse_command("buffer double"), Command::Buffer(BufferMode::Double));
    assert_eq!(parse_command("buffer Triple"), Command::Buffer(BufferMode::Triple));
    assert_eq!(parse_command("buffer quad"), Command::Invalid(Complaint::Buffer));
    assert_eq!(parse_command("index immediate"), Command::Index(IndexMode::Immediate));
    assert_eq!(parse_command("index onebehind"), Command::Index(IndexMode::OneBehind));
    assert_eq!(parse_command("frame double"), Command::Index(IndexMode::OneBehind));
    assert_eq!(parse_command("index twobehind"), Command::Index(IndexMode::TwoBehind));
    assert_eq!(parse_command("index triple"), Command::Index(IndexMode::TwoBehind));
    assert_eq!(parse_command("index vanilla"), Command::Index(IndexMode::TwoBehind));
    assert_eq!(parse_command("frame frozen"), Command::Index(IndexMode::TwoBehind));
    assert_eq!(parse_command("index"), Command::Invalid(Complaint::Index));
}

#[test]
fn unknown_commands() {
    assert_eq!(parse_command("dance"), Command::Invalid(Complaint::Unknown));
    assert_eq!(parse_command("vsyncon"), Command::Invalid(Complaint::Unknown));
}

#[test]
fn commands_ignore_case_and_surrounding_space() {
    assert_eq!(parse_command("  VSYNC ON \t"), parse_command("vsync on"));
    assert_eq!(parse_command("InDeX OneBehind"), Command::Index(IndexMode::OneBehind));
}

#[test]
fn complaint_messages() {
    assert_eq!(Complaint::Mouse.message(), "mouse expects 'on' or 'off'");
    assert_eq!(Complaint::Buffer.message(), "buffer expects 'double' or 'triple'");
    assert_eq!(Complaint::Index.message(), "index expects immediate/onebehind/twobehind");
    assert_eq!(Complaint::Unknown.message(), "unknown command; type 'help'");
}
