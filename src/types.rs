//! The values a board is made of.

use vstd::prelude::*;

verus! {

/// What stands on a square; `Empty` marks an empty square.
#[derive(Clone, Copy, Debug, PartialEq, Eq, Structural)]
pub enum Piece {
    King,
    Queen,
    Rook,
    Bishop,
    Knight,
    Pawn,
    Empty,
}

/// Who owns a square; `Neutral` goes with an empty square only.
#[derive(Clone, Copy, Debug, PartialEq, Eq, Structural)]
pub enum Side {
    White,
    Black,
    Neutral,
}

/// The classification of a position, as seen by the side to move.
#[derive(Clone, Copy, Debug, PartialEq, Eq, Structural)]
pub enum BoardState {
    Default,
    Checked(Side),
    CheckMated(Side),
    WhiteLoseByCheckMate,
    BlackLoseByCheckMate,
    WhiteLoseByTime,
    BlackLoseByTime,
    DrawBy50Rule,
    DrawByStaleMate,
    WhitePromotion,
    BlackPromotion,
}

/// Castling rights: which kings and rooks have left their starting squares.
/// `rook_one` is the queen-side rook (a-file), `rook_two` the king-side one.
#[derive(Clone, Copy, Debug, PartialEq, Eq, Structural)]
pub struct CastleInfo {
    pub white_rook_one_moved: bool,
    pub white_rook_two_moved: bool,
    pub black_rook_one_moved: bool,
    pub black_rook_two_moved: bool,
    pub white_king_moved: bool,
    pub black_king_moved: bool,
}

/// Why a request was refused; the game is left as it was.
#[derive(Clone, Copy, Debug, PartialEq, Eq, Structural)]
pub enum ChessError {
    IndexOutOfRange,
    IllegalMove,
    InvalidPromotion,
}

/// The other player; `Neutral` stays `Neutral`.
pub open spec fn opponent_of(s: Side) -> Side {
    match s {
        Side::White => Side::Black,
        Side::Black => Side::White,
        Side::Neutral => Side::Neutral,
    }
}

impl Side {
    /// The other player.
    pub fn opponent(self) -> (r: Side)
        ensures
            r == opponent_of(self),
    {
        match self {
            Side::White => Side::Black,
            Side::Black => Side::White,
            Side::Neutral => Side::Neutral,
        }
    }
}

} // verus!
