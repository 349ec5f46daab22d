//! The position tracker: the current board, and how a list of move tokens
//! changes it. The rules of chess are those of the `chess` crate.

use crate::placement::{check_placement, placement_is_sound};
use crate::text::texts;
use chess::{Board, ChessMove, Color};
use vstd::prelude::*;

verus! {

/// `chess::Board`, a position of the game: carried through as a whole.
#[verifier::external_type_specification]
#[verifier::external_body]
pub struct ExBoard(chess::Board);

/// `chess::ChessMove`, a move from one square to another: carried through
/// as a whole.
#[verifier::external_type_specification]
#[verifier::external_body]
pub struct ExChessMove(chess::ChessMove);

/// The board that a position text in Forsyth-Edwards notation describes, if
/// it describes one: what `Board::from_str` returns.
pub uninterp spec fn parsed_board(fen: Seq<char>) -> Option<Board>;

/// The move that a token in coordinate notation writes, if it writes one:
/// what `ChessMove::from_str` returns.
pub uninterp spec fn parsed_move(token: Seq<char>) -> Option<ChessMove>;

/// Whether a move is legal on a board: what `Board::legal` returns, on a
/// board whose moves can be listed.
pub uninterp spec fn move_is_legal(board: Board, mv: ChessMove) -> bool;

/// The number of pieces of the side to move: the squares that
/// `Board::color_combined` gives for `Board::side_to_move`, counted by
/// `BitBoard::popcnt`.
pub uninterp spec fn pieces_to_move(board: Board) -> u32;

/// The board after a move: what `Board::make_move_new` returns.
pub uninterp spec fn board_after(board: Board, mv: ChessMove) -> Board;

/// Whether White is to move: whether `Board::side_to_move` is `Color::White`.
pub uninterp spec fn white_to_move(board: Board) -> bool;

/// A move in coordinate notation: what its `Display` impl writes.
pub uninterp spec fn move_text(mv: ChessMove) -> Seq<char>;

/// The most pieces that one side has in a game of chess.
pub const MOST_PIECES: u32 = 16;

/// Whether the moves of a board can be listed: the side to move has no more
/// pieces than a side has in a game.
pub open spec fn moves_can_be_listed(board: Board) -> bool {
    pieces_to_move(board) <= 16
}

/// The standard starting position in Forsyth-Edwards notation.
pub open spec fn start_fen() -> Seq<char> {
    "rnbqkbnr/pppppppp/8/8/8/8/PPPPPPPP/RNBQKBNR w KQkq - 0 1"@
}

/// The board of the standard starting position.
pub open spec fn initial_position() -> Board {
    parsed_board(start_fen())->0
}

/// `Board::default`: the crate builds it by parsing the standard starting
/// position, and that parse succeeds.
#[verifier::external_body]
pub(crate) fn initial_board() -> (board: Board)
    ensures
        parsed_board(start_fen()) == Some(board),
{
    Board::default()
}

/// `Board::from_str`: the board that the text describes, or nothing where the
/// crate rejects the text. The crate looks up each side's king before it has
/// made sure that there is one, so only texts whose placement puts one king
/// of each side on the board are admitted.
#[verifier::external_body]
pub(crate) fn board_from_fen(fen: &str) -> (board: Option<Board>)
    requires
        placement_is_sound(fen@),
    ensures
        board == parsed_board(fen@),
{
    <Board as std::str::FromStr>::from_str(fen).ok()
}

/// `ChessMove::from_str`: the move that the token writes, or nothing where
/// the crate rejects the token.
#[verifier::external_body]
pub(crate) fn move_from_token(token: &str) -> (mv: Option<ChessMove>)
    ensures
        mv == parsed_move(token@),
{
    <ChessMove as std::str::FromStr>::from_str(token).ok()
}

/// `Board::color_combined` for `Board::side_to_move`, counted by
/// `BitBoard::popcnt`: the number of pieces of the side to move.
#[verifier::external_body]
pub(crate) fn count_pieces_to_move(board: &Board) -> (count: u32)
    ensures
        count == pieces_to_move(*board),
{
    board.color_combined(board.side_to_move()).popcnt()
}

/// `Board::legal`: whether the move is among the legal moves of the board.
/// The crate lists the moves in eighteen slots, one for each piece that can
/// move and up to two for captures in passing, and does not check that they
/// suffice, so only boards whose side to move has sixteen pieces or fewer
/// are admitted.
#[verifier::external_body]
pub(crate) fn is_legal(board: &Board, mv: ChessMove) -> (legal: bool)
    requires
        moves_can_be_listed(*board),
    ensures
        legal == move_is_legal(*board, mv),
{
    board.legal(mv)
}

/// `Board::make_move_new`: the board after the move. The crate does not
/// check the move and may panic on one that is not legal, so only legal
/// moves are admitted.
#[verifier::external_body]
pub(crate) fn make_move(board: &Board, mv: ChessMove) -> (next: Board)
    requires
        move_is_legal(*board, mv),
    ensures
        next == board_after(*board, mv),
{
    board.make_move_new(mv)
}

/// `Board::side_to_move`, as whether it is White.
#[verifier::external_body]
pub(crate) fn is_white_to_move(board: &Board) -> (white: bool)
    ensures
        white == white_to_move(*board),
{
    match board.side_to_move() {
        Color::White => true,
        Color::Black => false,
    }
}

/// `ToString::to_string` on a `ChessMove`: the move as its `Display` impl
/// writes it.
#[verifier::external_body]
pub(crate) fn text_of_move(mv: &ChessMove) -> (text: String)
    ensures
        text@ == move_text(*mv),
{
    mv.to_string()
}

/// The board that a raw position text describes: the one that the rules
/// engine reads from it, where the placement is sound.
pub open spec fn described_board(raw: Seq<char>) -> Option<Board> {
    if placement_is_sound(raw) {
        parsed_board(raw)
    } else {
        None
    }
}

/// Reads a board from a raw position text.
pub fn read_board(raw: &str) -> (board: Option<Board>)
    ensures
        board == described_board(raw@),
{
    if check_placement(raw) {
        board_from_fen(raw)
    } else {
        None
    }
}

/// A move token could not be applied: it writes no move, the move is not
/// legal in the position reached, or the moves of that position cannot be
/// listed.
#[derive(Clone, Copy, Debug, PartialEq, Eq)]
pub struct IllegalMove;

/// The board after one token of a position command, or nothing where the
/// token cannot be applied: `startpos` gives the starting position, `moves`
/// changes nothing, any other token must write a legal move. On a board
/// whose moves cannot be listed no move is applied.
pub open spec fn apply_token(board: Board, token: Seq<char>) -> Option<Board> {
    if token == "startpos"@ {
        Some(initial_position())
    } else if token == "moves"@ {
        Some(board)
    } else {
        match parsed_move(token) {
            Some(mv) => if moves_can_be_listed(board) && move_is_legal(board, mv) {
                Some(board_after(board, mv))
            } else {
                None
            },
            None => None,
        }
    }
}

/// The board after the tokens, applied from left to right, or nothing where
/// one of them cannot be applied.
pub open spec fn apply_tokens(board: Board, tokens: Seq<Seq<char>>) -> Option<Board>
    decreases tokens.len(),
{
    if tokens.len() == 0 {
        Some(board)
    } else {
        match apply_token(board, tokens[0]) {
            Some(next) => apply_tokens(next, tokens.skip(1)),
            None => None,
        }
    }
}

/// The tokens of a command after its first.
pub open spec fn arguments(tokens: Seq<Seq<char>>) -> Seq<Seq<char>> {
    if tokens.len() == 0 {
        tokens
    } else {
        tokens.skip(1)
    }
}

/// Applies one token of a position command to a board.
pub fn apply_move_token(board: &Board, token: &String) -> (next: Option<Board>)
    ensures
        next == apply_token(*board, token@),
{
    if crate::text::is_word(token, "startpos") {
        Some(initial_board())
    } else if crate::text::is_word(token, "moves") {
        Some(*board)
    } else {
        match move_from_token(token.as_str()) {
            Some(mv) => {
                if count_pieces_to_move(board) > MOST_PIECES {
                    None
                } else if is_legal(board, mv) {
                    Some(make_move(board, mv))
                } else {
                    None
                }
            },
            None => None,
        }
    }
}

/// Applies the tokens from index `start` on to the board, from left to
/// right. Where one of them cannot be applied the board is left as it was.
pub(crate) fn apply_from(
    tokens: &Vec<String>,
    start: usize,
    board: &mut Board,
) -> (done: Result<(), IllegalMove>)
    requires
        start <= tokens.len(),
    ensures
        match apply_tokens(*old(board), texts(tokens@).skip(start as int)) {
            Some(reached) => done is Ok && *final(board) == reached,
            None => done is Err && *final(board) == *old(board),
        },
{
    let ghost all = texts(tokens@);
    let mut current: Board = *board;
    let mut i: usize = start;
    while i < tokens.len()
        invariant
            start <= i <= tokens.len(),
            all == texts(tokens@),
            apply_tokens(current, all.skip(i as int)) == apply_tokens(
                *old(board),
                all.skip(start as int),
            ),
            *board == *old(board),
        decreases tokens.len() - i,
    {
        let ghost rest = all.skip(i as int);
        assert(rest[0] == tokens@[i as int]@);
        assert(rest.skip(1) =~= all.skip(i + 1));
        match apply_move_token(&current, &tokens[i]) {
            Some(next) => {
                current = next;
            },
            None => {
                return Err(IllegalMove);
            },
        }
        i += 1;
    }
    *board = current;
    Ok(())
}

/// Applies a list of move tokens to the board, from left to right. Where
/// one of them cannot be applied the board is left as it was.
pub fn apply_move_list(tokens: &Vec<String>, board: &mut Board) -> (done: Result<(), IllegalMove>)
    ensures
        match apply_tokens(*old(board), texts(tokens@)) {
            Some(reached) => done is Ok && *final(board) == reached,
            None => done is Err && *final(board) == *old(board),
        },
{
    assert(texts(tokens@).skip(0) =~= texts(tokens@));
    apply_from(tokens, 0, board)
}

/// Applies the tokens of a position command, all but the command word, to
/// the board. Where one of them cannot be applied the board is left as it
/// was.
pub fn load_position(input: &Vec<String>, board: &mut Board) -> (done: Result<(), IllegalMove>)
    ensures
        match apply_tokens(*old(board), arguments(texts(input@))) {
            Some(reached) => done is Ok && *final(board) == reached,
            None => done is Err && *final(board) == *old(board),
        },
{
    if input.len() == 0 {
        Ok(())
    } else {
        apply_from(input, 1, board)
    }
}

/// The line that announces the move a search has chosen.
pub fn bestmove_line(best_move: &ChessMove) -> (line: String)
    ensures
        line@ == "bestmove "@ + move_text(*best_move),
{
    let text = text_of_move(best_move);
    String::from_str("bestmove ").concat(text.as_str())
}


/// A move list that begins with `startpos` and `moves` forgets the board it
/// is applied to: it gives what its move gives on the starting position.
pub proof fn lemma_startpos_then_move(board: Board, token: Seq<char>)
    ensures
        apply_tokens(board, seq!["startpos"@, "moves"@, token]) == apply_token(
            initial_position(),
            token,
        ),
        apply_tokens(board, seq!["startpos"@]) == Some(initial_position()),
{
    reveal_strlit("startpos");
    reveal_strlit("moves");
    let all = seq!["startpos"@, "moves"@, token];
    let tail = seq!["moves"@, token];
    let last = seq![token];
    assert("moves"@.len() != "startpos"@.len());
    assert(all.skip(1) =~= tail);
    assert(tail.skip(1) =~= last);
    assert(last.skip(1) =~= Seq::<Seq<char>>::empty());
    assert(seq!["startpos"@].skip(1) =~= Seq::<Seq<char>>::empty());
    reveal_with_fuel(apply_tokens, 5);
}

} // verus!
