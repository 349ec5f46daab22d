//! The session: the state that lasts from command to command, and the
//! decision that each command calls for.
//!
//! The session decides and the program around it acts: every command gives
//! the next state and an `Action` to perform. A search runs outside; the
//! session knows it by a ticket, hands the ticket out when the search is to
//! start or to be cancelled, and is told when the search has ended.

use crate::command::{classify, parse_command, Command, CommandView};
use crate::position::{
    apply_move_list, apply_tokens, described_board, initial_board, initial_position,
    is_white_to_move, read_board, white_to_move,
};
use crate::text::tokens_of;
use crate::timecontrol::{budget_nanos, thinking_time, total_nanos};
use chess::Board;
use std::time::Duration;
use vstd::prelude::*;

verus! {

/// Why a command was not carried out. The session is as it was before.
#[derive(Clone, Copy, Debug, PartialEq, Eq)]
pub enum Fault {
    /// A field of the command is missing or malformed.
    Protocol,
    /// A move token writes no move that is legal where it stands.
    IllegalMove,
}

/// What a search is started with.
#[derive(Clone, Copy, Debug, PartialEq, Eq)]
pub struct SearchRequest {
    /// The ticket by which the session knows this search.
    pub ticket: u64,
    /// The position to search, as it stood when the search was asked for.
    pub position: Board,
    /// The time that the search may take.
    pub budget: Duration,
}

/// What the program is to do after a command.
#[derive(Clone, Copy, Debug, PartialEq, Eq)]
pub enum Action {
    /// Nothing.
    Silent,
    /// Print the identification and its acknowledgment.
    Identify,
    /// Print the readiness acknowledgment.
    ReadyOk,
    /// Stop reading commands.
    Quit,
    /// Start a search. Where an earlier search is still under way, `replaced`
    /// holds its ticket: that search is to be cancelled first.
    StartSearch { request: SearchRequest, replaced: Option<u64> },
    /// Signal the search with this ticket to end.
    Cancel(u64),
    /// Read the next line and hand it to `load_debug_state`.
    AwaitDebugState,
    /// The command was rejected.
    Rejected(Fault),
}

/// An action as plain values: the budget by its length in nanoseconds.
pub enum ActionView {
    Silent,
    Identify,
    ReadyOk,
    Quit,
    StartSearch { ticket: u64, position: Board, budget_nanos: nat, replaced: Option<u64> },
    Cancel(u64),
    AwaitDebugState,
    Rejected(Fault),
}

impl View for Action {
    type V = ActionView;

    open spec fn view(&self) -> ActionView {
        match *self {
            Action::Silent => ActionView::Silent,
            Action::Identify => ActionView::Identify,
            Action::ReadyOk => ActionView::ReadyOk,
            Action::Quit => ActionView::Quit,
            Action::StartSearch { request, replaced } => ActionView::StartSearch {
                ticket: request.ticket,
                position: request.position,
                budget_nanos: total_nanos(request.budget),
                replaced,
            },
            Action::Cancel(ticket) => ActionView::Cancel(ticket),
            Action::AwaitDebugState => ActionView::AwaitDebugState,
            Action::Rejected(fault) => ActionView::Rejected(fault),
        }
    }
}

/// The state of one session.
#[derive(Clone, Copy, Debug, PartialEq, Eq)]
pub struct Session {
    /// The current position.
    pub position: Board,
    /// The searches started since the game began.
    pub moves_played: u8,
    /// The ticket of the search under way, if one is.
    pub active_cancellation: Option<u64>,
    /// The ticket that the next search will get.
    pub next_ticket: u64,
}

/// The ticket after a ticket: the next number, and zero after the last.
pub open spec fn following_ticket(ticket: u64) -> u64 {
    if ticket == u64::MAX {
        0
    } else {
        (ticket + 1) as u64
    }
}

/// The move counter after one more search: it stops at its largest value.
pub open spec fn counted(moves_played: u8) -> u8 {
    if moves_played == u8::MAX {
        moves_played
    } else {
        (moves_played + 1) as u8
    }
}

/// The clock of the side to move, in milliseconds.
pub open spec fn clock_of(
    position: Board,
    white_ms: Option<u64>,
    black_ms: Option<u64>,
) -> Option<u64> {
    if white_to_move(position) {
        white_ms
    } else {
        black_ms
    }
}

/// The session of a game that has not begun.
pub open spec fn fresh_session() -> Session {
    Session {
        position: initial_position(),
        moves_played: 0,
        active_cancellation: None,
        next_ticket: 0,
    }
}

/// The session after a command.
pub open spec fn next_session(s: Session, c: CommandView) -> Session {
    match c {
        CommandView::Handshake => Session { moves_played: 0, ..s },
        CommandView::NewGame => Session { position: initial_position(), moves_played: 0, ..s },
        CommandView::SetPosition(tokens) => match apply_tokens(s.position, tokens) {
            Some(reached) => Session { position: reached, ..s },
            None => s,
        },
        CommandView::BeginThinking { white_ms, black_ms } => match clock_of(
            s.position,
            white_ms,
            black_ms,
        ) {
            Some(_) => Session {
                moves_played: counted(s.moves_played),
                active_cancellation: Some(s.next_ticket),
                next_ticket: following_ticket(s.next_ticket),
                ..s
            },
            None => s,
        },
        _ => s,
    }
}

/// What a command calls for.
pub open spec fn reaction(s: Session, c: CommandView) -> ActionView {
    match c {
        CommandView::Handshake => ActionView::Identify,
        CommandView::ReadyCheck => ActionView::ReadyOk,
        CommandView::NewGame => ActionView::Silent,
        CommandView::SetPosition(tokens) => match apply_tokens(s.position, tokens) {
            Some(_) => ActionView::Silent,
            None => ActionView::Rejected(Fault::IllegalMove),
        },
        CommandView::BeginThinking { white_ms, black_ms } => match clock_of(
            s.position,
            white_ms,
            black_ms,
        ) {
            Some(ms) => ActionView::StartSearch {
                ticket: s.next_ticket,
                position: s.position,
                budget_nanos: budget_nanos(s.moves_played as nat, ms as nat * 1_000_000),
                replaced: s.active_cancellation,
            },
            None => ActionView::Rejected(Fault::Protocol),
        },
        CommandView::CancelThinking => match s.active_cancellation {
            Some(ticket) => ActionView::Cancel(ticket),
            None => ActionView::Silent,
        },
        CommandView::Shutdown => ActionView::Quit,
        CommandView::DebugLoad => ActionView::AwaitDebugState,
        CommandView::Unrecognized => ActionView::Silent,
    }
}

/// The session after the search with this ticket has ended: where it is the
/// search under way, none is any more.
pub open spec fn session_after_search(s: Session, ticket: u64) -> Session {
    if s.active_cancellation == Some(ticket) {
        Session { active_cancellation: None, ..s }
    } else {
        s
    }
}

/// The session after a raw position was handed in: the position is the one
/// described, where the text describes one.
pub open spec fn session_after_debug_state(s: Session, raw: Seq<char>) -> Session {
    match described_board(raw) {
        Some(board) => Session { position: board, ..s },
        None => s,
    }
}

impl Session {
    /// A session at the starting position, with no move played and no search
    /// under way.
    pub fn new() -> (s: Session)
        ensures
            s == fresh_session(),
    {
        Session {
            position: initial_board(),
            moves_played: 0,
            active_cancellation: None,
            next_ticket: 0,
        }
    }

    /// Starts a search for the side to move with `clock_ms` milliseconds left.
    fn begin_thinking(&mut self, clock_ms: u64) -> (action: Action)
        ensures
            *final(self) == (Session {
                moves_played: counted(old(self).moves_played),
                active_cancellation: Some(old(self).next_ticket),
                next_ticket: following_ticket(old(self).next_ticket),
                ..*old(self)
            }),
            action@ == (ActionView::StartSearch {
                ticket: old(self).next_ticket,
                position: old(self).position,
                budget_nanos: budget_nanos(
                    old(self).moves_played as nat,
                    clock_ms as nat * 1_000_000,
                ),
                replaced: old(self).active_cancellation,
            }),
    {
        let remaining = Duration::from_millis(clock_ms);
        assert(total_nanos(remaining) == clock_ms as nat * 1_000_000);
        let request = SearchRequest {
            ticket: self.next_ticket,
            position: self.position,
            budget: thinking_time(self.moves_played, remaining),
        };
        let replaced = self.active_cancellation;
        self.active_cancellation = Some(self.next_ticket);
        self.next_ticket = if self.next_ticket == u64::MAX {
            0
        } else {
            self.next_ticket + 1
        };
        if self.moves_played < u8::MAX {
            self.moves_played = self.moves_played + 1;
        }
        Action::StartSearch { request, replaced }
    }

    /// Carries out one command.
    pub fn dispatch(&mut self, command: Command) -> (action: Action)
        ensures
            *final(self) == next_session(*old(self), command@),
            action@ == reaction(*old(self), command@),
    {
        match command {
            Command::Handshake => {
                self.moves_played = 0;
                Action::Identify
            },
            Command::ReadyCheck => Action::ReadyOk,
            Command::NewGame => {
                self.position = initial_board();
                self.moves_played = 0;
                Action::Silent
            },
            Command::SetPosition(tokens) => {
                let mut board: Board = self.position;
                match apply_move_list(&tokens, &mut board) {
                    Ok(()) => {
                        self.position = board;
                        Action::Silent
                    },
                    Err(_) => Action::Rejected(Fault::IllegalMove),
                }
            },
            Command::BeginThinking { white_ms, black_ms } => {
                let clock = if is_white_to_move(&self.position) {
                    white_ms
                } else {
                    black_ms
                };
                match clock {
                    Some(ms) => self.begin_thinking(ms),
                    None => Action::Rejected(Fault::Protocol),
                }
            },
            Command::CancelThinking => match self.active_cancellation {
                Some(ticket) => Action::Cancel(ticket),
                None => Action::Silent,
            },
            Command::Shutdown => Action::Quit,
            Command::DebugLoad => Action::AwaitDebugState,
            Command::Unrecognized => Action::Silent,
        }
    }

    /// Reads one line as a command and carries it out.
    pub fn parse_input(&mut self, line: &str) -> (action: Action)
        ensures
            *final(self) == next_session(*old(self), classify(tokens_of(line@))),
            action@ == reaction(*old(self), classify(tokens_of(line@))),
    {
        let command = parse_command(line);
        self.dispatch(command)
    }

    /// Takes the raw position that was asked for with
    /// `Action::AwaitDebugState`. A text that describes no position is
    /// rejected and the session stays as it was.
    pub fn load_debug_state(&mut self, raw: &str) -> (action: Action)
        ensures
            *final(self) == session_after_debug_state(*old(self), raw@),
            action == (match described_board(raw@) {
                Some(_) => Action::Silent,
                None => Action::Rejected(Fault::Protocol),
            }),
    {
        match read_board(raw) {
            Some(board) => {
                self.position = board;
                Action::Silent
            },
            None => Action::Rejected(Fault::Protocol),
        }
    }

    /// Notes that the search with this ticket has ended.
    pub fn search_finished(&mut self, ticket: u64)
        ensures
            *final(self) == session_after_search(*old(self), ticket),
    {
        match self.active_cancellation {
            Some(active) => {
                if active == ticket {
                    self.active_cancellation = None;
                }
            },
            None => {},
        }
    }
}

/// The text of the line, or lines, that an action prints at once.
pub open spec fn response_of(action: ActionView) -> Option<Seq<char>> {
    match action {
        ActionView::Identify => Some("info name shallow-red 0.1\nuciok"@),
        ActionView::ReadyOk => Some("readyok"@),
        _ => None,
    }
}

/// What is to be printed at once for an action, if anything.
pub fn response_text(action: &Action) -> (text: Option<String>)
    ensures
        match response_of(action@) {
            Some(expected) => text is Some && text->0@ == expected,
            None => text is None,
        },
{
    match action {
        Action::Identify => Some(String::from_str("info name shallow-red 0.1\nuciok")),
        Action::ReadyOk => Some(String::from_str("readyok")),
        _ => None,
    }
}


/// A handshake sets the move counter to zero, whatever the session held,
/// leaves the rest alone, and is answered by the identification and its
/// acknowledgment.
pub proof fn lemma_handshake_resets_counter(s: Session)
    ensures
        next_session(s, CommandView::Handshake) == (Session { moves_played: 0, ..s }),
        reaction(s, CommandView::Handshake) == ActionView::Identify,
        response_of(reaction(s, CommandView::Handshake)) == Some(
            "info name shallow-red 0.1\nuciok"@,
        ),
{
}

/// A readiness check changes nothing in the session and is always answered
/// by the acknowledgment.
pub proof fn lemma_ready_check_changes_nothing(s: Session)
    ensures
        next_session(s, CommandView::ReadyCheck) == s,
        reaction(s, CommandView::ReadyCheck) == ActionView::ReadyOk,
        response_of(reaction(s, CommandView::ReadyCheck)) == Some("readyok"@),
{
}

/// A new game puts the starting position on the board and the move counter
/// at zero, whatever the session held, and prints nothing.
pub proof fn lemma_new_game_resets(s: Session)
    ensures
        next_session(s, CommandView::NewGame).position == initial_position(),
        next_session(s, CommandView::NewGame).moves_played == 0,
        next_session(s, CommandView::NewGame) == (Session {
            position: initial_position(),
            moves_played: 0,
            ..s
        }),
        reaction(s, CommandView::NewGame) == ActionView::Silent,
        response_of(reaction(s, CommandView::NewGame)) is None,
{
}

/// A stop with no search under way changes nothing and calls for nothing.
pub proof fn lemma_stop_when_idle(s: Session)
    requires
        s.active_cancellation is None,
    ensures
        next_session(s, CommandView::CancelThinking) == s,
        reaction(s, CommandView::CancelThinking) == ActionView::Silent,
        response_of(reaction(s, CommandView::CancelThinking)) is None,
{
}

/// A line without a token is ignored: the session stays as it is and
/// nothing is called for.
pub proof fn lemma_blank_line_is_ignored(s: Session, line: Seq<char>)
    requires
        forall|i: int| 0 <= i < line.len() ==> crate::text::is_space(#[trigger] line[i]),
    ensures
        next_session(s, classify(tokens_of(line))) == s,
        reaction(s, classify(tokens_of(line))) == ActionView::Silent,
{
    crate::text::lemma_blank_line_has_no_tokens(line);
}

/// A stop never changes the session: with a search under way it calls for
/// that search to be cancelled, and the ticket stays until the search is
/// reported as ended.
pub proof fn lemma_stop_keeps_session(s: Session)
    ensures
        next_session(s, CommandView::CancelThinking) == s,
        s.active_cancellation matches Some(ticket) ==> reaction(s, CommandView::CancelThinking)
            == ActionView::Cancel(ticket),
{
}

/// Whether a search is started depends on the clock of the side to move
/// alone, never on a search being under way: the new search gets a ticket of
/// its own, becomes the search under way, and the one it replaces is named.
pub proof fn lemma_search_never_blocked(
    s: Session,
    white_ms: Option<u64>,
    black_ms: Option<u64>,
)
    requires
        clock_of(s.position, white_ms, black_ms) is Some,
    ensures
        ({
            let go = CommandView::BeginThinking { white_ms, black_ms };
            let after = next_session(s, go);
            &&& reaction(s, go) matches ActionView::StartSearch {
                ticket,
                position,
                budget_nanos,
                replaced,
            }
            &&& ticket == s.next_ticket
            &&& position == s.position
            &&& replaced == s.active_cancellation
            &&& budget_nanos >= 1_000_000_000
            &&& after.active_cancellation == Some(s.next_ticket)
            &&& after.next_ticket != s.next_ticket
            &&& after.position == s.position
        }),
{
}

/// A search, then a stop at once, then a second search: the second is
/// started like any other. While the first has not been reported as ended,
/// the second replaces it; once it has been, no search is under way and the
/// second replaces none.
pub proof fn lemma_search_after_stop(
    s: Session,
    first_ms: u64,
    white_ms: Option<u64>,
    black_ms: Option<u64>,
)
    requires
        clock_of(s.position, white_ms, black_ms) is Some,
    ensures
        ({
            let first = CommandView::BeginThinking {
                white_ms: Some(first_ms),
                black_ms: Some(first_ms),
            };
            let second = CommandView::BeginThinking { white_ms, black_ms };
            let started = next_session(s, first);
            let stopped = next_session(started, CommandView::CancelThinking);
            let ended = session_after_search(stopped, s.next_ticket);
            &&& reaction(started, CommandView::CancelThinking) == ActionView::Cancel(s.next_ticket)
            &&& stopped == started
            &&& reaction(stopped, second) matches ActionView::StartSearch { ticket, replaced, .. }
            &&& ticket == stopped.next_ticket
            &&& ticket != s.next_ticket
            &&& replaced == Some(s.next_ticket)
            &&& next_session(stopped, second).active_cancellation == Some(stopped.next_ticket)
            &&& ended.active_cancellation is None
            &&& reaction(ended, second) matches ActionView::StartSearch {
                ticket: later,
                replaced: none,
                ..
            }
            &&& later == stopped.next_ticket
            &&& none is None
            &&& next_session(ended, second) == next_session(stopped, second)
        }),
{
}

/// The end of a search that was replaced does not touch the search that
/// replaced it.
pub proof fn lemma_replaced_search_ends_quietly(s: Session, earlier: u64)
    requires
        s.active_cancellation != Some(earlier),
    ensures
        session_after_search(s, earlier) == s,
{
}

} // verus!
