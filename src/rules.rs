//! Move legality and game outcomes, from the `chess` crate.
//!
//! A board position is held as its FEN text, so that a game session is made
//! of plain values; the rule engine is called on that text.
use vstd::prelude::*;

verus! {

/// FEN text of the standard starting position.
pub const START_POSITION: &'static str = "rnbqkbnr/pppppppp/8/8/8/8/PPPPPPPP/RNBQKBNR w KQkq - 0 1";

/// A player's colour.
#[derive(Debug, Clone, Copy, PartialEq, Eq, Structural)]
pub enum Side {
    White,
    Black,
}

/// Whether the side to move has a legal move, and if not, whether it is in check.
#[derive(Debug, Clone, Copy, PartialEq, Eq, Structural)]
pub enum BoardStatus {
    Ongoing,
    Stalemate,
    Checkmate,
}

/// How a game ended.
#[derive(Debug, Clone, Copy, PartialEq, Eq, Structural)]
pub enum Outcome {
    WhiteCheckmates,
    WhiteResigns,
    BlackCheckmates,
    BlackResigns,
    Stalemate,
    DrawAccepted,
    DrawDeclared,
}

/// The position (FEN) reached by playing the SAN move `mv` from `position`,
/// or `None` when `position` is not a legal FEN or `mv` is not a legal move there.
pub uninterp spec fn san_successor(position: Seq<char>, mv: Seq<char>) -> Option<Seq<char>>;

/// The status of `position` (FEN) and its side to move, or `None` when it is
/// not a legal FEN.
pub uninterp spec fn position_status(position: Seq<char>) -> Option<(BoardStatus, Side)>;

/// Relies on `chess::Board::from_str`, `chess::ChessMove::from_san` and
/// `chess::Board::make_move_new`: the successor position depends on the
/// position and the move text alone.
#[verifier::external_body]
pub(crate) fn play_san(position: &str, mv: &str) -> (r: Option<String>)
    ensures
        r is Some <==> san_successor(position@, mv@) is Some,
        r matches Some(p) ==> san_successor(position@, mv@) == Some(p@),
{
    let board = <chess::Board as std::str::FromStr>::from_str(position).ok()?;
    let chess_move = chess::ChessMove::from_san(&board, mv).ok()?;
    Some(board.make_move_new(chess_move).to_string())
}

/// Relies on `chess::Board::from_str`, `chess::Board::status` and
/// `chess::Board::side_to_move`: both depend on the position alone.
#[verifier::external_body]
pub(crate) fn board_status(position: &str) -> (r: Option<(BoardStatus, Side)>)
    ensures
        r == position_status(position@),
{
    let board = <chess::Board as std::str::FromStr>::from_str(position).ok()?;
    let status = match board.status() {
        chess::BoardStatus::Ongoing => BoardStatus::Ongoing,
        chess::BoardStatus::Stalemate => BoardStatus::Stalemate,
        chess::BoardStatus::Checkmate => BoardStatus::Checkmate,
    };
    let side = match board.side_to_move() {
        chess::Color::White => Side::White,
        chess::Color::Black => Side::Black,
    };
    Some((status, side))
}

/// The outcome of a game whose only actions are moves, from the status of its
/// current position: a side to move without a legal move loses if in check,
/// and draws by stalemate if not.
pub open spec fn outcome_spec(status: Option<(BoardStatus, Side)>) -> Option<Outcome> {
    match status {
        Some((BoardStatus::Checkmate, Side::White)) => Some(Outcome::BlackCheckmates),
        Some((BoardStatus::Checkmate, Side::Black)) => Some(Outcome::WhiteCheckmates),
        Some((BoardStatus::Stalemate, _)) => Some(Outcome::Stalemate),
        _ => None,
    }
}

/// The winner of a finished game; `None` is a draw.
pub open spec fn winner_spec(o: Outcome) -> Option<Side> {
    match o {
        Outcome::WhiteCheckmates | Outcome::BlackResigns => Some(Side::White),
        Outcome::BlackCheckmates | Outcome::WhiteResigns => Some(Side::Black),
        Outcome::DrawAccepted | Outcome::Stalemate | Outcome::DrawDeclared => None,
    }
}

/// The outcome of a game whose only actions are moves, from its position's status.
pub fn outcome_of(status: Option<(BoardStatus, Side)>) -> (r: Option<Outcome>)
    ensures
        r == outcome_spec(status),
{
    match status {
        Some((BoardStatus::Checkmate, Side::White)) => Some(Outcome::BlackCheckmates),
        Some((BoardStatus::Checkmate, Side::Black)) => Some(Outcome::WhiteCheckmates),
        Some((BoardStatus::Stalemate, _)) => Some(Outcome::Stalemate),
        _ => None,
    }
}

/// The winner of a finished game; `None` is a draw.
pub fn winner_of(o: Outcome) -> (r: Option<Side>)
    ensures
        r == winner_spec(o),
{
    match o {
        Outcome::WhiteCheckmates | Outcome::BlackResigns => Some(Side::White),
        Outcome::BlackCheckmates | Outcome::WhiteResigns => Some(Side::Black),
        Outcome::DrawAccepted | Outcome::Stalemate | Outcome::DrawDeclared => None,
    }
}

} // verus!
