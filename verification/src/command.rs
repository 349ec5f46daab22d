//! The commands of the protocol, and how a line is classified as one.

use crate::text::{decimal_u64, is_word, parse_u64, split_tokens, texts, tokens_of};
use vstd::prelude::*;

verus! {

/// One command, as read from one line.
#[derive(Debug, PartialEq, Eq)]
pub enum Command {
    /// `uci`: the controller asks the engine to identify itself.
    Handshake,
    /// `isready`: the controller asks whether the engine is ready.
    ReadyCheck,
    /// `ucinewgame`: a new game begins.
    NewGame,
    /// `position`: the tokens that follow the command word.
    SetPosition(Vec<String>),
    /// `go`: the time left to each side in milliseconds, where the line gives
    /// it as a number.
    BeginThinking { white_ms: Option<u64>, black_ms: Option<u64> },
    /// `stop`: the search under way is to end.
    CancelThinking,
    /// `quit`: the session ends.
    Shutdown,
    /// `debuginternal`: a raw position follows on the next line.
    DebugLoad,
    /// An empty line, or a command that is not known.
    Unrecognized,
}

/// What a command holds, as plain values.
pub enum CommandView {
    Handshake,
    ReadyCheck,
    NewGame,
    SetPosition(Seq<Seq<char>>),
    BeginThinking { white_ms: Option<u64>, black_ms: Option<u64> },
    CancelThinking,
    Shutdown,
    DebugLoad,
    Unrecognized,
}

impl View for Command {
    type V = CommandView;

    open spec fn view(&self) -> CommandView {
        match *self {
            Command::Handshake => CommandView::Handshake,
            Command::ReadyCheck => CommandView::ReadyCheck,
            Command::NewGame => CommandView::NewGame,
            Command::SetPosition(tokens) => CommandView::SetPosition(texts(tokens@)),
            Command::BeginThinking { white_ms, black_ms } => CommandView::BeginThinking {
                white_ms,
                black_ms,
            },
            Command::CancelThinking => CommandView::CancelThinking,
            Command::Shutdown => CommandView::Shutdown,
            Command::DebugLoad => CommandView::DebugLoad,
            Command::Unrecognized => CommandView::Unrecognized,
        }
    }
}

/// The number at a position of a line's tokens, where there is a token and
/// it writes one.
pub open spec fn time_field(tokens: Seq<Seq<char>>, index: int) -> Option<u64> {
    if 0 <= index < tokens.len() {
        decimal_u64(tokens[index])
    } else {
        None
    }
}

/// The command that a line's tokens make. The first token decides; a `go`
/// line carries White's time as its third token and Black's as its fifth.
pub open spec fn classify(tokens: Seq<Seq<char>>) -> CommandView {
    if tokens.len() == 0 {
        CommandView::Unrecognized
    } else if tokens[0] == "uci"@ {
        CommandView::Handshake
    } else if tokens[0] == "isready"@ {
        CommandView::ReadyCheck
    } else if tokens[0] == "ucinewgame"@ {
        CommandView::NewGame
    } else if tokens[0] == "position"@ {
        CommandView::SetPosition(tokens.skip(1))
    } else if tokens[0] == "go"@ {
        CommandView::BeginThinking {
            white_ms: time_field(tokens, 2),
            black_ms: time_field(tokens, 4),
        }
    } else if tokens[0] == "debuginternal"@ {
        CommandView::DebugLoad
    } else if tokens[0] == "stop"@ {
        CommandView::CancelThinking
    } else if tokens[0] == "quit"@ {
        CommandView::Shutdown
    } else {
        CommandView::Unrecognized
    }
}

/// Reads the number at a position of a line's tokens.
pub fn read_time_field(tokens: &Vec<String>, index: usize) -> (value: Option<u64>)
    ensures
        value == time_field(texts(tokens@), index as int),
{
    if index < tokens.len() {
        parse_u64(tokens[index].as_str())
    } else {
        None
    }
}

/// Classifies the tokens of one line.
pub fn command_from_tokens(tokens: Vec<String>) -> (command: Command)
    ensures
        command@ == classify(texts(tokens@)),
{
    let mut tokens = tokens;
    if tokens.len() == 0 {
        return Command::Unrecognized;
    }
    let ghost all = texts(tokens@);
    if is_word(&tokens[0], "uci") {
        Command::Handshake
    } else if is_word(&tokens[0], "isready") {
        Command::ReadyCheck
    } else if is_word(&tokens[0], "ucinewgame") {
        Command::NewGame
    } else if is_word(&tokens[0], "position") {
        let _ = tokens.remove(0);
        assert(texts(tokens@) =~= all.skip(1));
        Command::SetPosition(tokens)
    } else if is_word(&tokens[0], "go") {
        let white_ms = read_time_field(&tokens, 2);
        let black_ms = read_time_field(&tokens, 4);
        Command::BeginThinking { white_ms, black_ms }
    } else if is_word(&tokens[0], "debuginternal") {
        Command::DebugLoad
    } else if is_word(&tokens[0], "stop") {
        Command::CancelThinking
    } else if is_word(&tokens[0], "quit") {
        Command::Shutdown
    } else {
        Command::Unrecognized
    }
}

/// Reads one line as a command.
pub fn parse_command(line: &str) -> (command: Command)
    ensures
        command@ == classify(tokens_of(line@)),
{
    command_from_tokens(split_tokens(line))
}

} // verus!
