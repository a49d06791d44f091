//! The control plane: commands, their wire form, and the socket.
//!
//! A connection carries one line with a JSON object, `{"cmd": ...}`, and one line back.

use vstd::prelude::*;
use vstd::utf8::encode_utf8;

use crate::json::{
    field, no_members, object_value, parsed, put, string_value, to_text, written, Json,
};
use crate::paths::{under, FilePath};
use crate::text::{
    is_white, law_trimmed_end, law_trimming_the_back_finds_the_core, same, trim_end_of,
    trimmed_end, CharClass,
};

verus! {

/// A command to the running daemon.
#[derive(Debug, Clone, Copy, PartialEq, Eq, Structural)]
pub enum Command {
    /// Ask whether it is alive.
    Ping,
    /// Run the pipes on what was heard since the last time.
    Next,
    /// Forget what was heard.
    Trash,
    /// Pause or resume recording.
    Pause,
    /// Show or hide the overlay.
    Toggle,
    /// Show the next suggestion.
    Forward,
    /// Show the previous suggestion.
    Backward,
    /// Shut down.
    Stop,
}

/// A failure of the control plane.
#[derive(Debug, Clone)]
pub enum IpcError {
    /// The socket failed.
    Io(String),
    /// A message could not be written or read as JSON.
    Json(String),
    /// A daemon owns the socket already.
    AlreadyRunning(FilePath),
    /// The daemon hung up without an answer.
    NoResponse,
}

impl Command {
    /// Name of the command on the wire.
    pub open spec fn wire_name(self) -> Seq<char> {
        match self {
            Command::Ping => "ping"@,
            Command::Next => "next"@,
            Command::Trash => "trash"@,
            Command::Pause => "pause"@,
            Command::Toggle => "toggle"@,
            Command::Forward => "forward"@,
            Command::Backward => "backward"@,
            Command::Stop => "stop"@,
        }
    }

    /// Name of the command on the wire.
    pub fn tag(self) -> (name: &'static str)
        ensures
            name@ == self.wire_name(),
    {
        match self {
            Command::Ping => "ping",
            Command::Next => "next",
            Command::Trash => "trash",
            Command::Pause => "pause",
            Command::Toggle => "toggle",
            Command::Forward => "forward",
            Command::Backward => "backward",
            Command::Stop => "stop",
        }
    }

    /// The command of a name, if there is one.
    pub fn from_tag(name: &str) -> (command: Option<Command>)
        ensures
            match command {
                Some(c) => c.wire_name() == name@,
                None => forall|c: Command| #[trigger] c.wire_name() != name@,
            },
    {
        if same(name, "ping") {
            Some(Command::Ping)
        } else if same(name, "next") {
            Some(Command::Next)
        } else if same(name, "trash") {
            Some(Command::Trash)
        } else if same(name, "pause") {
            Some(Command::Pause)
        } else if same(name, "toggle") {
            Some(Command::Toggle)
        } else if same(name, "forward") {
            Some(Command::Forward)
        } else if same(name, "backward") {
            Some(Command::Backward)
        } else if same(name, "stop") {
            Some(Command::Stop)
        } else {
            None
        }
    }

    /// The object that stands for the command.
    pub open spec fn message(self) -> Json {
        Json::Obj(Map::empty().insert("cmd"@, Json::Str(self.wire_name())))
    }

    /// Whether a line, without its end, carries the command: one line indeed, without
    /// white space at its end, and one that reads as the command's object.
    pub open spec fn is_sent_as(self, line: Seq<char>) -> bool {
        &&& !line.contains('\n')
        &&& trimmed_end(line, CharClass::White) == line
        &&& parsed(encode_utf8(line)) == Some(self.message())
    }

    /// The line that sends the command, without its end.
    pub fn encode(self) -> (line: Result<String, IpcError>)
        ensures
            line matches Ok(l) && l@ == written(self.message()) && self.is_sent_as(l@),
    {
        let mut table = no_members();
        put(&mut table, "cmd".to_owned(), string_value(self.tag().to_owned()));
        let message = object_value(table);
        match to_text(&message) {
            Ok(line) => Ok(line),
            Err(_) => Err(IpcError::Json("command could not be serialised".to_owned())),
        }
    }
}

/// `text` as a line: with a newline behind it.
pub fn framed(text: &str) -> (line: String)
    ensures
        line@ == text@ + seq!['\n'],
{
    let mut line = text.to_owned();
    line.push('\n');
    assert(line@ =~= text@ + seq!['\n']);
    line
}

/// What a line says: without the white space at its end.
pub fn unframed(line: &str) -> (text: String)
    ensures
        text@ == trimmed_end(line@, CharClass::White),
{
    trim_end_of(line, CharClass::White).to_owned()
}

/// The answer to a command: the line that came back, if one came.
pub fn response(line: Option<String>) -> (answer: Result<String, IpcError>)
    ensures
        match line {
            Some(l) => answer matches Ok(a) && a@ == trimmed_end(l@, CharClass::White),
            None => answer == Err::<String, IpcError>(IpcError::NoResponse),
        },
{
    match line {
        Some(l) => Ok(unframed(l.as_str())),
        None => Err(IpcError::NoResponse),
    }
}

/// Where the control socket lies: in the runtime directory, else in the temporary one.
pub fn socket_path(runtime_dir: Option<FilePath>, temp_dir: FilePath) -> (path: FilePath)
    ensures
        path@ == under(
            match runtime_dir {
                Some(dir) => dir@,
                None => temp_dir@,
            },
            encode_utf8("kitetsu.sock"@),
        ),
{
    match runtime_dir {
        Some(dir) => dir.join("kitetsu.sock"),
        None => temp_dir.join("kitetsu.sock"),
    }
}

/// What to do before binding the socket.
#[derive(Debug)]
pub enum BindStep {
    /// Nothing is in the way.
    Bind,
    /// A crashed daemon left its socket behind; remove it first.
    RemoveStale,
}

/// What to do before binding the socket at `path`: a file there is in the way only if a
/// daemon answers on it.
pub fn bind(path: FilePath, exists: bool, answers: bool) -> (step: Result<BindStep, IpcError>)
    ensures
        exists && answers ==> step == Err::<BindStep, IpcError>(IpcError::AlreadyRunning(path)),
        exists && !answers ==> step matches Ok(BindStep::RemoveStale),
        !exists ==> step matches Ok(BindStep::Bind),
{
    if exists {
        if answers {
            return Err(IpcError::AlreadyRunning(path));
        }
        return Ok(BindStep::RemoveStale);
    }
    Ok(BindStep::Bind)
}

// ── Laws ──────────────────────────────────────────────────────────────────────

/// A command survives the wire: a line that carries it, framed and unframed, reads as an
/// object whose `cmd` is the command's name, and no other command's.
pub proof fn law_commands_survive_the_wire(sent: Command, line: Seq<char>)
    requires
        sent.is_sent_as(line),
    ensures
        ({
            let got = trimmed_end(line + seq!['\n'], CharClass::White);
            &&& got == line
            &&& parsed(encode_utf8(got)) matches Some(json) && forall|read: Command|
                field(json, "cmd"@) == Some(Json::Str(#[trigger] read.wire_name())) <==> read == sent
        }),
{
    law_frame_round_trip(line);
    let json = sent.message();
    assert(field(json, "cmd"@) == Some(Json::Str(sent.wire_name())));
    assert forall|read: Command|
        field(json, "cmd"@) == Some(Json::Str(#[trigger] read.wire_name())) <==> read == sent by {
        if read.wire_name() == sent.wire_name() {
            law_names_are_distinct(read, sent);
        }
    }
}

/// Two commands never share a name.
pub proof fn law_names_are_distinct(a: Command, b: Command)
    requires
        a.wire_name() == b.wire_name(),
    ensures
        a == b,
{
    reveal_strlit("ping");
    reveal_strlit("next");
    reveal_strlit("trash");
    reveal_strlit("pause");
    reveal_strlit("toggle");
    reveal_strlit("forward");
    reveal_strlit("backward");
    reveal_strlit("stop");
    assert("ping"@[0] == 'p' && "ping"@[1] == 'i');
    assert("next"@[0] == 'n' && "next"@[1] == 'e');
    assert("trash"@[0] == 't' && "trash"@[1] == 'r');
    assert("pause"@[0] == 'p' && "pause"@[1] == 'a');
    assert("toggle"@[0] == 't' && "toggle"@[1] == 'o');
    assert("forward"@[0] == 'f' && "forward"@[1] == 'o');
    assert("backward"@[0] == 'b' && "backward"@[1] == 'a');
    assert("stop"@[0] == 's' && "stop"@[1] == 't');
    let (n, m) = (a.wire_name(), b.wire_name());
    assert(n[0] == m[0] && n[1] == m[1]);
}

/// Framing a line and reading it back gives the text without white space at its end.
pub proof fn law_frame_round_trip(text: Seq<char>)
    ensures
        trimmed_end(text + seq!['\n'], CharClass::White) == trimmed_end(text, CharClass::White),
{
    let line = text + seq!['\n'];
    assert(line.drop_last() =~= text);
}

/// Every command has its own name on the wire, and is sent as an object that holds the name
/// and nothing else.
pub proof fn law_commands_are_sent_by_name(command: Command)
    ensures
        command is Ping ==> command.wire_name() == "ping"@,
        command is Next ==> command.wire_name() == "next"@,
        command is Trash ==> command.wire_name() == "trash"@,
        command is Pause ==> command.wire_name() == "pause"@,
        command is Toggle ==> command.wire_name() == "toggle"@,
        command is Forward ==> command.wire_name() == "forward"@,
        command is Backward ==> command.wire_name() == "backward"@,
        command is Stop ==> command.wire_name() == "stop"@,
        field(command.message(), "cmd"@) == Some(Json::Str(command.wire_name())),
        command.message() matches Json::Obj(m) && m.dom() =~= set!["cmd"@],
{
}

/// A line that carries a command is one line, ends without white space, and reads as the
/// command's object.
pub proof fn law_lines_carry_commands(command: Command, line: Seq<char>)
    ensures
        command.is_sent_as(line) <==> {
            &&& forall|i: int| 0 <= i < line.len() ==> #[trigger] line[i] != '\n'
            &&& line.len() > 0 ==> !is_white(line.last())
            &&& parsed(encode_utf8(line)) == Some(command.message())
        },
{
    let none = Seq::<char>::empty();
    assert(line + none =~= line);
    if line.len() > 0 && !is_white(line.last()) {
        law_trimming_the_back_finds_the_core(line, none, CharClass::White);
    }
    law_trimmed_end(line, CharClass::White);
}

} // verus!
