//! The console's command language.

use vstd::prelude::*;
use vstd::string::*;
use crate::console::text::{
    chars_of, is_space, leading_words, lemma_has_first_word, lemma_trim_front, lemma_trim_idempotent, lemma_trim_lower,
    lemma_words_of_empty, lemma_words_of_unbroken, lower, lowered, spells, trim, trim_bounds, words,
};
use crate::modes::{BufferMode, IndexMode};

verus! {

/// Why a command was refused.
#[derive(Debug, Clone, Copy, PartialEq, Eq, Structural)]
pub enum Complaint {
    Mouse,
    Vsync,
    Render,
    Pacer,
    Buffer,
    Index,
    Unknown,
}

/// The message logged for a refused command.
pub open spec fn complaint_message(complaint: Complaint) -> Seq<char> {
    match complaint {
        Complaint::Mouse => "mouse expects 'on' or 'off'"@,
        Complaint::Vsync => "vsync expects 'on' or 'off'"@,
        Complaint::Render => "render expects 'on' or 'off'"@,
        Complaint::Pacer => "pacer expects 'on' or 'off'"@,
        Complaint::Buffer => "buffer expects 'double' or 'triple'"@,
        Complaint::Index => "index expects immediate/onebehind/twobehind"@,
        Complaint::Unknown => "unknown command; type 'help'"@,
    }
}

impl Complaint {
    /// The message logged for this complaint.
    pub fn message(self) -> (message: &'static str)
        ensures
            message@ == complaint_message(self),
    {
        match self {
            Complaint::Mouse => "mouse expects 'on' or 'off'",
            Complaint::Vsync => "vsync expects 'on' or 'off'",
            Complaint::Render => "render expects 'on' or 'off'",
            Complaint::Pacer => "pacer expects 'on' or 'off'",
            Complaint::Buffer => "buffer expects 'double' or 'triple'",
            Complaint::Index => "index expects immediate/onebehind/twobehind",
            Complaint::Unknown => "unknown command; type 'help'",
        }
    }
}

/// A console command, as read from its text.
#[derive(Debug, Clone, Copy, PartialEq, Eq, Structural)]
pub enum Command {
    /// Nothing but white space.
    Empty,
    Clear,
    Help,
    Refresh,
    Callbacks,
    Mouse(bool),
    Vsync(bool),
    RenderOpts(bool),
    Pacer(bool),
    Buffer(BufferMode),
    Index(IndexMode),
    Invalid(Complaint),
}

/// An `on`/`off` argument.
pub open spec fn switch_of(arg: Option<Seq<char>>) -> Option<bool> {
    match arg {
        Some(word) => if word == "on"@ {
            Some(true)
        } else if word == "off"@ {
            Some(false)
        } else {
            None
        },
        None => None,
    }
}

/// A switch command: the switch on a valid argument, the complaint otherwise.
pub open spec fn switch_command(arg: Option<Seq<char>>, complaint: Complaint, make: spec_fn(bool) -> Command) -> Command {
    match switch_of(arg) {
        Some(on) => make(on),
        None => Command::Invalid(complaint),
    }
}

/// The buffer mode an argument names.
pub open spec fn buffer_arg(arg: Option<Seq<char>>) -> Option<BufferMode> {
    match arg {
        Some(word) => if word == "double"@ {
            Some(BufferMode::Double)
        } else if word == "triple"@ {
            Some(BufferMode::Triple)
        } else {
            None
        },
        None => None,
    }
}

/// The index mode an argument names; `double` is an alias of `onebehind`,
/// and `triple`, `vanilla` and `frozen` of `twobehind`.
pub open spec fn index_arg(arg: Option<Seq<char>>) -> Option<IndexMode> {
    match arg {
        Some(word) => if word == "immediate"@ {
            Some(IndexMode::Immediate)
        } else if word == "onebehind"@ || word == "double"@ {
            Some(IndexMode::OneBehind)
        } else if word == "twobehind"@ || word == "triple"@ || word == "vanilla"@ || word
            == "frozen"@ {
            Some(IndexMode::TwoBehind)
        } else {
            None
        },
        None => None,
    }
}

/// The command named by a lower-cased first word and its optional second
/// word; any further words are ignored.
pub open spec fn command_for(head: Seq<char>, arg: Option<Seq<char>>) -> Command {
    if head == "help"@ {
        Command::Help
    } else if head == "refresh"@ || head == "status"@ {
        Command::Refresh
    } else if head == "callbacks"@ {
        Command::Callbacks
    } else if head == "mouse"@ {
        switch_command(arg, Complaint::Mouse, |on: bool| Command::Mouse(on))
    } else if head == "vsync"@ {
        switch_command(arg, Complaint::Vsync, |on: bool| Command::Vsync(on))
    } else if head == "render"@ || head == "renderopts"@ {
        switch_command(arg, Complaint::Render, |on: bool| Command::RenderOpts(on))
    } else if head == "pacer"@ {
        switch_command(arg, Complaint::Pacer, |on: bool| Command::Pacer(on))
    } else if head == "buffer"@ {
        match buffer_arg(arg) {
            Some(mode) => Command::Buffer(mode),
            None => Command::Invalid(Complaint::Buffer),
        }
    } else if head == "index"@ || head == "frame"@ {
        match index_arg(arg) {
            Some(mode) => Command::Index(mode),
            None => Command::Invalid(Complaint::Index),
        }
    } else {
        Command::Invalid(Complaint::Unknown)
    }
}

/// The command that a line of console input names: the input is trimmed,
/// lower-cased (ASCII letters only) and split on white space; the whole
/// line `clear` clears the log.
pub open spec fn command_of(input: Seq<char>) -> Command {
    let t = trim(input);
    if t.len() == 0 {
        Command::Empty
    } else if lower(t) == "clear"@ {
        Command::Clear
    } else {
        let w = words(lower(t));
        command_for(w[0], if w.len() >= 2 { Some(w[1]) } else { None })
    }
}

/// Whether the word at `bounds` spells `word`.
fn word_is(s: &Vec<char>, bounds: Option<(usize, usize)>, word: &str) -> (same: bool)
    requires
        bounds matches Some((a, b)) ==> a <= b <= s@.len(),
    ensures
        same == (bounds matches Some((a, b)) && s@.subrange(a as int, b as int) == word@),
{
    match bounds {
        Some((a, b)) => spells(s, a, b, word),
        None => false,
    }
}

/// Reads one line of console input.
pub fn parse_command(input: &str) -> (command: Command)
    ensures
        command == command_of(input@),
{
    let chars = chars_of(input);
    let (start, end) = trim_bounds(&chars);
    if start == end {
        return Command::Empty;
    }
    let n = lowered(&chars, start, end);
    proof {
        lemma_trim_front(input@);
    }
    if spells(&n, 0, n.len(), "clear") {
        assert(n@.subrange(0, n@.len() as int) =~= n@);
        return Command::Clear;
    }
    assert(n@.subrange(0, n@.len() as int) =~= n@);
    proof {
        lemma_has_first_word(n@);
    }
    let (first, second) = leading_words(&n);
    let ghost w = words(n@);
    let ghost arg: Option<Seq<char>> = if w.len() >= 2 {
        Some(w[1])
    } else {
        None
    };
    assert(second matches Some((a, b)) ==> n@.subrange(a as int, b as int) == arg->0);
    let ghost expected = command_of(input@);
    assert(expected == command_for(w[0], arg));
    if word_is(&n, first, "help") {
        Command::Help
    } else if word_is(&n, first, "refresh") || word_is(&n, first, "status") {
        Command::Refresh
    } else if word_is(&n, first, "callbacks") {
        Command::Callbacks
    } else if word_is(&n, first, "mouse") {
        if word_is(&n, second, "on") {
            Command::Mouse(true)
        } else if word_is(&n, second, "off") {
            Command::Mouse(false)
        } else {
            Command::Invalid(Complaint::Mouse)
        }
    } else if word_is(&n, first, "vsync") {
        if word_is(&n, second, "on") {
            Command::Vsync(true)
        } else if word_is(&n, second, "off") {
            Command::Vsync(false)
        } else {
            Command::Invalid(Complaint::Vsync)
        }
    } else if word_is(&n, first, "render") || word_is(&n, first, "renderopts") {
        if word_is(&n, second, "on") {
            Command::RenderOpts(true)
        } else if word_is(&n, second, "off") {
            Command::RenderOpts(false)
        } else {
            Command::Invalid(Complaint::Render)
        }
    } else if word_is(&n, first, "pacer") {
        if word_is(&n, second, "on") {
            Command::Pacer(true)
        } else if word_is(&n, second, "off") {
            Command::Pacer(false)
        } else {
            Command::Invalid(Complaint::Pacer)
        }
    } else if word_is(&n, first, "buffer") {
        if word_is(&n, second, "double") {
            Command::Buffer(BufferMode::Double)
        } else if word_is(&n, second, "triple") {
            Command::Buffer(BufferMode::Triple)
        } else {
            Command::Invalid(Complaint::Buffer)
        }
    } else if word_is(&n, first, "index") || word_is(&n, first, "frame") {
        if word_is(&n, second, "immediate") {
            Command::Index(IndexMode::Immediate)
        } else if word_is(&n, second, "onebehind") || word_is(&n, second, "double") {
            Command::Index(IndexMode::OneBehind)
        } else if word_is(&n, second, "twobehind") || word_is(&n, second, "triple") || word_is(
            &n,
            second,
            "vanilla",
        ) || word_is(&n, second, "frozen") {
            Command::Index(IndexMode::TwoBehind)
        } else {
            Command::Invalid(Complaint::Index)
        }
    } else {
        Command::Invalid(Complaint::Unknown)
    }
}

/// Commands are case-insensitive: lower-casing the ASCII letters of a line
/// does not change the command it names.
pub proof fn lemma_commands_ignore_case(input: Seq<char>)
    ensures
        command_of(lower(input)) == command_of(input),
{
    lemma_trim_lower(input);
    lemma_trim_lower(trim(input));
}

/// Leading and trailing white space does not change the command a line
/// names.
pub proof fn lemma_commands_ignore_surrounding_space(input: Seq<char>)
    ensures
        command_of(trim(input)) == command_of(input),
{
    lemma_trim_idempotent(input);
}

/// The words a console line is read by: the line trimmed, lower-cased and
/// split on white space.
pub open spec fn line_words(input: Seq<char>) -> Seq<Seq<char>> {
    words(lower(trim(input)))
}

/// A line is read from its words: with no words it is empty; otherwise,
/// unless its first word is `clear`, it is the command of its first word and
/// of its second word, if there is one.
proof fn lemma_command_of_words(input: Seq<char>)
    ensures
        line_words(input).len() == 0 ==> command_of(input) == Command::Empty,
        line_words(input).len() >= 1 && (line_words(input)[0] != "clear"@ || line_words(input).len()
            >= 2) ==> command_of(input) == command_for(
            line_words(input)[0],
            if line_words(input).len() >= 2 {
                Some(line_words(input)[1])
            } else {
                None
            },
        ),
{
    let t = trim(input);
    if t.len() == 0 {
        lemma_words_of_empty(lower(t));
    } else {
        lemma_trim_front(input);
        lemma_has_first_word(lower(t));
        if lower(t) == "clear"@ {
            reveal_strlit("clear");
            assert forall|i: int| 0 <= i < "clear"@.len() implies !is_space(#[trigger] "clear"@[i]) by {}
            lemma_words_of_unbroken("clear"@);
        }
    }
}

/// The literals of the command language are distinct words, none of them
/// `clear`.
proof fn lemma_keywords_distinct()
    ensures
        "on"@ != "off"@,
        "help"@ != "clear"@,
        "refresh"@ != "clear"@,
        "status"@ != "clear"@,
        "callbacks"@ != "clear"@,
        "mouse"@ != "clear"@,
        "vsync"@ != "clear"@,
        "render"@ != "clear"@,
        "renderopts"@ != "clear"@,
        "pacer"@ != "clear"@,
        "buffer"@ != "clear"@,
        "index"@ != "clear"@,
        "frame"@ != "clear"@,
        "mouse"@ != "help"@ && "mouse"@ != "refresh"@ && "mouse"@ != "status"@ && "mouse"@ != "callbacks"@,
        "vsync"@ != "help"@ && "vsync"@ != "refresh"@ && "vsync"@ != "status"@ && "vsync"@ != "callbacks"@
            && "vsync"@ != "mouse"@,
        "render"@ != "help"@ && "render"@ != "refresh"@ && "render"@ != "status"@ && "render"@
            != "callbacks"@ && "render"@ != "mouse"@ && "render"@ != "vsync"@,
        "renderopts"@ != "help"@ && "renderopts"@ != "refresh"@ && "renderopts"@ != "status"@
            && "renderopts"@ != "callbacks"@ && "renderopts"@ != "mouse"@ && "renderopts"@
            != "vsync"@,
        "pacer"@ != "help"@ && "pacer"@ != "refresh"@ && "pacer"@ != "status"@ && "pacer"@
            != "callbacks"@ && "pacer"@ != "mouse"@ && "pacer"@ != "vsync"@ && "pacer"@
            != "render"@ && "pacer"@ != "renderopts"@,
{
    reveal_strlit("on");
    reveal_strlit("off");
    reveal_strlit("clear");
    reveal_strlit("help");
    reveal_strlit("refresh");
    reveal_strlit("status");
    reveal_strlit("callbacks");
    reveal_strlit("mouse");
    reveal_strlit("vsync");
    reveal_strlit("render");
    reveal_strlit("renderopts");
    reveal_strlit("pacer");
    reveal_strlit("buffer");
    reveal_strlit("index");
    reveal_strlit("frame");
    assert("on"@.len() == 2 && "off"@.len() == 3 && "help"@.len() == 4 && "refresh"@.len() == 7
        && "callbacks"@.len() == 9 && "renderopts"@.len() == 10);
    assert("clear"@.len() == 5 && "clear"@[0] == 'c');
    assert("mouse"@.len() == 5 && "mouse"@[0] == 'm');
    assert("vsync"@.len() == 5 && "vsync"@[0] == 'v');
    assert("pacer"@.len() == 5 && "pacer"@[0] == 'p');
    assert("index"@.len() == 5 && "index"@[0] == 'i');
    assert("frame"@.len() == 5 && "frame"@[0] == 'f');
    assert("status"@.len() == 6 && "status"@[0] == 's');
    assert("render"@.len() == 6 && "render"@[0] == 'r');
    assert("buffer"@.len() == 6 && "buffer"@[0] == 'b');
}

/// The arguments of the mode commands are distinct words, and the mode
/// commands differ from the other commands.
proof fn lemma_mode_keywords_distinct()
    ensures
        "buffer"@ != "help"@ && "buffer"@ != "refresh"@ && "buffer"@ != "status"@ && "buffer"@
            != "callbacks"@ && "buffer"@ != "mouse"@ && "buffer"@ != "vsync"@ && "buffer"@
            != "render"@ && "buffer"@ != "renderopts"@ && "buffer"@ != "pacer"@,
        "index"@ != "help"@ && "index"@ != "refresh"@ && "index"@ != "status"@ && "index"@
            != "callbacks"@ && "index"@ != "mouse"@ && "index"@ != "vsync"@ && "index"@
            != "render"@ && "index"@ != "renderopts"@ && "index"@ != "pacer"@ && "index"@
            != "buffer"@,
        "frame"@ != "help"@ && "frame"@ != "refresh"@ && "frame"@ != "status"@ && "frame"@
            != "callbacks"@ && "frame"@ != "mouse"@ && "frame"@ != "vsync"@ && "frame"@
            != "render"@ && "frame"@ != "renderopts"@ && "frame"@ != "pacer"@ && "frame"@
            != "buffer"@,
        "double"@ != "triple"@ && "double"@ != "immediate"@,
        "onebehind"@ != "immediate"@,
        "triple"@ != "immediate"@ && "triple"@ != "onebehind"@,
        "twobehind"@ != "immediate"@ && "twobehind"@ != "onebehind"@ && "twobehind"@ != "double"@,
        "vanilla"@ != "immediate"@ && "vanilla"@ != "onebehind"@ && "vanilla"@ != "double"@
            && "vanilla"@ != "twobehind"@ && "vanilla"@ != "triple"@,
        "frozen"@ != "immediate"@ && "frozen"@ != "onebehind"@ && "frozen"@ != "double"@ && "frozen"@
            != "twobehind"@ && "frozen"@ != "triple"@ && "frozen"@ != "vanilla"@,
{
    reveal_strlit("help");
    reveal_strlit("refresh");
    reveal_strlit("status");
    reveal_strlit("callbacks");
    reveal_strlit("mouse");
    reveal_strlit("vsync");
    reveal_strlit("render");
    reveal_strlit("renderopts");
    reveal_strlit("pacer");
    reveal_strlit("buffer");
    reveal_strlit("index");
    reveal_strlit("frame");
    reveal_strlit("double");
    reveal_strlit("triple");
    reveal_strlit("immediate");
    reveal_strlit("onebehind");
    reveal_strlit("twobehind");
    reveal_strlit("vanilla");
    reveal_strlit("frozen");
    assert("help"@.len() == 4 && "refresh"@.len() == 7 && "callbacks"@.len() == 9
        && "renderopts"@.len() == 10 && "vanilla"@.len() == 7);
    assert("mouse"@.len() == 5 && "mouse"@[0] == 'm');
    assert("vsync"@.len() == 5 && "vsync"@[0] == 'v');
    assert("pacer"@.len() == 5 && "pacer"@[0] == 'p');
    assert("index"@.len() == 5 && "index"@[0] == 'i');
    assert("frame"@.len() == 5 && "frame"@[0] == 'f');
    assert("status"@.len() == 6 && "status"@[0] == 's');
    assert("render"@.len() == 6 && "render"@[0] == 'r');
    assert("buffer"@.len() == 6 && "buffer"@[0] == 'b');
    assert("double"@.len() == 6 && "double"@[0] == 'd');
    assert("triple"@.len() == 6 && "triple"@[0] == 't');
    assert("frozen"@.len() == 6 && "frozen"@[0] == 'f');
    assert("immediate"@.len() == 9 && "immediate"@[0] == 'i');
    assert("onebehind"@.len() == 9 && "onebehind"@[0] == 'o');
    assert("twobehind"@.len() == 9 && "twobehind"@[0] == 't');
}

/// The mode commands read their second word: `buffer double` and `buffer
/// triple` choose double and triple buffering; `index` (or `frame`) followed
/// by `immediate` runs immediately, by `onebehind` or `double` one frame
/// behind, and by `twobehind`, `triple`, `vanilla` or `frozen` two frames
/// behind; any other second word, or none, is refused with the command's own
/// complaint.
pub proof fn lemma_mode_commands(input: Seq<char>)
    ensures
        line_words(input).len() >= 1 && line_words(input)[0] == "buffer"@ ==> {
            &&& line_words(input).len() >= 2 && line_words(input)[1] == "double"@ ==> command_of(input)
                == Command::Buffer(BufferMode::Double)
            &&& line_words(input).len() >= 2 && line_words(input)[1] == "triple"@ ==> command_of(input)
                == Command::Buffer(BufferMode::Triple)
            &&& (line_words(input).len() < 2 || (line_words(input)[1] != "double"@ && line_words(
                input,
            )[1] != "triple"@)) ==> command_of(input) == Command::Invalid(Complaint::Buffer)
        },
        line_words(input).len() >= 1 && (line_words(input)[0] == "index"@ || line_words(input)[0]
            == "frame"@) ==> {
            &&& line_words(input).len() >= 2 && line_words(input)[1] == "immediate"@ ==> command_of(
                input,
            ) == Command::Index(IndexMode::Immediate)
            &&& line_words(input).len() >= 2 && (line_words(input)[1] == "onebehind"@ || line_words(
                input,
            )[1] == "double"@) ==> command_of(input) == Command::Index(IndexMode::OneBehind)
            &&& line_words(input).len() >= 2 && (line_words(input)[1] == "twobehind"@ || line_words(
                input,
            )[1] == "triple"@ || line_words(input)[1] == "vanilla"@ || line_words(input)[1]
                == "frozen"@) ==> command_of(input) == Command::Index(IndexMode::TwoBehind)
            &&& (line_words(input).len() < 2 || (line_words(input)[1] != "immediate"@ && line_words(
                input,
            )[1] != "onebehind"@ && line_words(input)[1] != "double"@ && line_words(input)[1]
                != "twobehind"@ && line_words(input)[1] != "triple"@ && line_words(input)[1]
                != "vanilla"@ && line_words(input)[1] != "frozen"@)) ==> command_of(input)
                == Command::Invalid(Complaint::Index)
        },
{
    lemma_command_of_words(input);
    lemma_keywords_distinct();
    lemma_mode_keywords_distinct();
    let w = line_words(input);
    if w.len() >= 1 {
        let arg = if w.len() >= 2 {
            Some(w[1])
        } else {
            None
        };
        if w[0] == "buffer"@ {
            assert(command_of(input) == match buffer_arg(arg) {
                Some(mode) => Command::Buffer(mode),
                None => Command::Invalid(Complaint::Buffer),
            });
        } else if w[0] == "index"@ || w[0] == "frame"@ {
            assert(command_of(input) == match index_arg(arg) {
                Some(mode) => Command::Index(mode),
                None => Command::Invalid(Complaint::Index),
            });
        }
    }
}

/// The commands without argument: a line with no words is empty; the whole
/// line `clear` (and only it) clears the log; `help`, `refresh` (or
/// `status`) and `callbacks` are read from the first word alone, whatever
/// follows; a first word that names no command is refused as unknown.
pub proof fn lemma_plain_commands(input: Seq<char>)
    ensures
        line_words(input).len() == 0 ==> command_of(input) == Command::Empty,
        command_of(input) == Command::Clear <==> lower(trim(input)) == "clear"@,
        line_words(input).len() >= 1 ==> {
            &&& line_words(input)[0] == "help"@ ==> command_of(input) == Command::Help
            &&& line_words(input)[0] == "refresh"@ ==> command_of(input) == Command::Refresh
            &&& line_words(input)[0] == "status"@ ==> command_of(input) == Command::Refresh
            &&& line_words(input)[0] == "callbacks"@ ==> command_of(input) == Command::Callbacks
        },
        line_words(input).len() >= 2 && line_words(input)[0] == "clear"@ ==> command_of(input)
            == Command::Invalid(Complaint::Unknown),
{
    lemma_command_of_words(input);
    lemma_keywords_distinct();
    reveal_strlit("help");
    reveal_strlit("refresh");
    reveal_strlit("status");
    reveal_strlit("callbacks");
    reveal_strlit("clear");
    assert("help"@.len() == 4 && "refresh"@.len() == 7 && "callbacks"@.len() == 9);
    assert("status"@.len() == 6 && "clear"@.len() == 5);
    if trim(input).len() == 0 {
        assert(lower(trim(input)) =~= Seq::<char>::empty());
        assert(lower(trim(input)) != "clear"@);
    }
}

/// The switch commands read their second word: `on` switches on and `off`
/// switches off, for `mouse`, `vsync`, `render` (or `renderopts`) and
/// `pacer`, whatever words follow; any other second word, or none, is
/// refused with the command's own complaint.
pub proof fn lemma_switch_commands(input: Seq<char>)
    ensures
        line_words(input).len() >= 2 && line_words(input)[1] == "on"@ ==> {
            &&& line_words(input)[0] == "mouse"@ ==> command_of(input) == Command::Mouse(true)
            &&& line_words(input)[0] == "vsync"@ ==> command_of(input) == Command::Vsync(true)
            &&& line_words(input)[0] == "render"@ ==> command_of(input) == Command::RenderOpts(true)
            &&& line_words(input)[0] == "renderopts"@ ==> command_of(input) == Command::RenderOpts(
                true,
            )
            &&& line_words(input)[0] == "pacer"@ ==> command_of(input) == Command::Pacer(true)
        },
        line_words(input).len() >= 2 && line_words(input)[1] == "off"@ ==> {
            &&& line_words(input)[0] == "mouse"@ ==> command_of(input) == Command::Mouse(false)
            &&& line_words(input)[0] == "vsync"@ ==> command_of(input) == Command::Vsync(false)
            &&& line_words(input)[0] == "render"@ ==> command_of(input) == Command::RenderOpts(false)
            &&& line_words(input)[0] == "renderopts"@ ==> command_of(input) == Command::RenderOpts(
                false,
            )
            &&& line_words(input)[0] == "pacer"@ ==> command_of(input) == Command::Pacer(false)
        },
        line_words(input).len() >= 1 && (line_words(input).len() < 2 || (line_words(input)[1]
            != "on"@ && line_words(input)[1] != "off"@)) ==> {
            &&& line_words(input)[0] == "mouse"@ ==> command_of(input) == Command::Invalid(
                Complaint::Mouse,
            )
            &&& line_words(input)[0] == "vsync"@ ==> command_of(input) == Command::Invalid(
                Complaint::Vsync,
            )
            &&& line_words(input)[0] == "render"@ ==> command_of(input) == Command::Invalid(
                Complaint::Render,
            )
            &&& line_words(input)[0] == "renderopts"@ ==> command_of(input) == Command::Invalid(
                Complaint::Render,
            )
            &&& line_words(input)[0] == "pacer"@ ==> command_of(input) == Command::Invalid(
                Complaint::Pacer,
            )
        },
{
    lemma_command_of_words(input);
    lemma_keywords_distinct();
    let w = line_words(input);
    if w.len() >= 1 {
        let arg = if w.len() >= 2 {
            Some(w[1])
        } else {
            None
        };
        assert(w.len() >= 2 && w[1] == "on"@ ==> switch_of(arg) == Some(true));
        assert(w.len() >= 2 && w[1] == "off"@ ==> switch_of(arg) == Some(false));
        assert(w.len() < 2 || (w[1] != "on"@ && w[1] != "off"@) ==> switch_of(arg) is None);
        if w[0] != "clear"@ {
            assert(command_of(input) == command_for(w[0], arg));
        }
    }
}

} // verus!
