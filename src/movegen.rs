//! The position model and pseudo-legal move generation: the squares each
//! piece can reach by its movement pattern and the board's occupancy,
//! before asking whether the move exposes its own king.

use vstd::prelude::*;
use crate::board::{
    file_of, offset_ok, offset_square, on_board, rank_of, ray_ok, ray_square, step, Direction,
};
use crate::types::{opponent_of, CastleInfo, Piece, Side};

verus! {

/// `s` lists the square `t`.
pub open spec fn lists(s: Seq<i8>, t: int) -> bool {
    exists|i: int| 0 <= i < s.len() && s[i] as int == t
}

/// Pushing `x` adds exactly `x` to what a sequence lists.
pub proof fn lemma_lists_push(s: Seq<i8>, x: i8)
    ensures
        forall|t: int| #[trigger] lists(s.push(x), t) == (lists(s, t) || t == x as int),
{
    assert forall|t: int| #[trigger] lists(s.push(x), t) == (lists(s, t) || t == x as int) by {
        if lists(s, t) {
            let i = choose|i: int| 0 <= i < s.len() && s[i] as int == t;
            assert(s.push(x)[i] == s[i]);
        }
        if t == x as int {
            assert(s.push(x)[s.len() as int] == x);
        }
        if lists(s.push(x), t) {
            let i = choose|i: int| 0 <= i < s.push(x).len() && s.push(x)[i] as int == t;
            if i < s.len() {
                assert(s[i] == s.push(x)[i]);
            }
        }
    }
}

/// `v` holds `x`.
pub fn contains(v: &Vec<i8>, x: i8) -> (r: bool)
    ensures
        r == lists(v@, x as int),
{
    let mut i: usize = 0;
    while i < v.len()
        invariant
            i <= v.len(),
            forall|j: int| 0 <= j < i ==> v@[j] != x,
        decreases v.len() - i,
    {
        if v[i] == x {
            return true;
        }
        i = i + 1;
    }
    false
}

/// Adds `t` to `out` unless it is listed already, so that no square is
/// listed twice.
pub fn push_unique(out: &mut Vec<i8>, t: i8)
    requires
        old(out)@.no_duplicates(),
    ensures
        final(out)@ == if lists(old(out)@, t as int) {
            old(out)@
        } else {
            old(out)@.push(t)
        },
        final(out)@.no_duplicates(),
        forall|u: int| #[trigger]
            lists(final(out)@, u) == (lists(old(out)@, u) || u == t as int),
{
    if !contains(out, t) {
        proof {
            lemma_lists_push(out@, t);
        }
        out.push(t);
    }
}

/// Everything a move's legality depends on: the board, the side to move,
/// castling rights, where the kings stand and the last move made.
#[derive(Clone, Copy, Debug)]
pub struct Position {
    pub pieces: [Piece; 64],
    pub sides: [Side; 64],
    pub turn: Side,
    pub castle_info: CastleInfo,
    pub white_king_pos: i8,
    pub black_king_pos: i8,
    pub last_move_origin: i8,
    pub last_move_target: i8,
}

/// The mathematical view of a `Position`.
pub struct PositionModel {
    pub pieces: Seq<Piece>,
    pub sides: Seq<Side>,
    pub turn: Side,
    pub castle: CastleInfo,
    pub white_king: int,
    pub black_king: int,
    pub last_origin: int,
    pub last_target: int,
}

impl View for Position {
    type V = PositionModel;

    open spec fn view(&self) -> PositionModel {
        PositionModel {
            pieces: self.pieces@,
            sides: self.sides@,
            turn: self.turn,
            castle: self.castle_info,
            white_king: self.white_king_pos as int,
            black_king: self.black_king_pos as int,
            last_origin: self.last_move_origin as int,
            last_target: self.last_move_target as int,
        }
    }
}

/// Rank direction in which a side's pawns advance.
pub open spec fn forward(side: Side) -> int {
    if side == Side::White {
        1
    } else {
        -1
    }
}

/// Rank from which a side's pawns may advance two squares.
pub open spec fn pawn_home_rank(side: Side) -> int {
    if side == Side::White {
        1
    } else {
        6
    }
}

/// The square a side's king starts on.
pub open spec fn king_home(side: Side) -> int {
    if side == Side::White {
        4
    } else {
        60
    }
}

impl PositionModel {
    /// Every square holds a real piece of a real side, or nothing of nobody.
    pub open spec fn wf(self) -> bool {
        &&& self.pieces.len() == 64
        &&& self.sides.len() == 64
        &&& forall|i: int|
            0 <= i < 64 ==> (#[trigger] self.pieces[i] == Piece::Empty) == (self.sides[i]
                == Side::Neutral)
        &&& self.turn != Side::Neutral
        &&& on_board(self.white_king)
        &&& on_board(self.black_king)
        &&& -1 <= self.last_origin < 64
        &&& -1 <= self.last_target < 64
        &&& (self.last_origin == -1) == (self.last_target == -1)
    }

    pub open spec fn king_of(self, side: Side) -> int {
        if side == Side::Black {
            self.black_king
        } else {
            self.white_king
        }
    }

    pub open spec fn king_moved(self, side: Side) -> bool {
        if side == Side::White {
            self.castle.white_king_moved
        } else {
            self.castle.black_king_moved
        }
    }

    /// The a-file rook of `side` has moved.
    pub open spec fn queen_rook_moved(self, side: Side) -> bool {
        if side == Side::White {
            self.castle.white_rook_one_moved
        } else {
            self.castle.black_rook_one_moved
        }
    }

    /// The h-file rook of `side` has moved.
    pub open spec fn king_rook_moved(self, side: Side) -> bool {
        if side == Side::White {
            self.castle.white_rook_two_moved
        } else {
            self.castle.black_rook_two_moved
        }
    }

    pub open spec fn is_empty(self, i: int) -> bool {
        self.pieces[i] == Piece::Empty
    }

    /// Moving `dr` ranks and `df` files from `p` lands on `t`, which holds no piece of `side`.
    pub open spec fn step_target(self, p: int, side: Side, dr: int, df: int, t: int) -> bool {
        offset_ok(p, dr, df) && t == offset_square(p, dr, df) && self.sides[t] != side
    }

    pub open spec fn knight_target(self, p: int, side: Side, t: int) -> bool {
        ||| self.step_target(p, side, 1, 2, t)
        ||| self.step_target(p, side, 1, -2, t)
        ||| self.step_target(p, side, -1, 2, t)
        ||| self.step_target(p, side, -1, -2, t)
        ||| self.step_target(p, side, 2, 1, t)
        ||| self.step_target(p, side, 2, -1, t)
        ||| self.step_target(p, side, -2, 1, t)
        ||| self.step_target(p, side, -2, -1, t)
    }

    pub open spec fn king_step_target(self, p: int, side: Side, t: int) -> bool {
        ||| self.step_target(p, side, 1, 1, t)
        ||| self.step_target(p, side, 1, 0, t)
        ||| self.step_target(p, side, 1, -1, t)
        ||| self.step_target(p, side, 0, 1, t)
        ||| self.step_target(p, side, 0, -1, t)
        ||| self.step_target(p, side, -1, 1, t)
        ||| self.step_target(p, side, -1, 0, t)
        ||| self.step_target(p, side, -1, -1, t)
    }

    /// `t` is `n` steps from `p` along `d`, every square before it is empty,
    /// and `t` holds no piece of `side`.
    pub open spec fn ray_hit(self, p: int, side: Side, d: Direction, n: int, t: int) -> bool {
        &&& 1 <= n
        &&& ray_ok(p, d, n)
        &&& t == ray_square(p, d, n)
        &&& self.sides[t] != side
        &&& forall|j: int| 1 <= j < n ==> self.sides[#[trigger] ray_square(p, d, j)] == Side::Neutral
    }

    /// A piece of `side` sliding from `p` along `d` can stop on `t`.
    pub open spec fn ray_target(self, p: int, side: Side, d: Direction, t: int) -> bool {
        exists|n: int| #[trigger] self.ray_hit(p, side, d, n, t)
    }

    pub open spec fn orthogonal_target(self, p: int, side: Side, t: int) -> bool {
        ||| self.ray_target(p, side, Direction::Right, t)
        ||| self.ray_target(p, side, Direction::Left, t)
        ||| self.ray_target(p, side, Direction::Up, t)
        ||| self.ray_target(p, side, Direction::Down, t)
    }

    pub open spec fn diagonal_target(self, p: int, side: Side, t: int) -> bool {
        ||| self.ray_target(p, side, Direction::TopRight, t)
        ||| self.ray_target(p, side, Direction::TopLeft, t)
        ||| self.ray_target(p, side, Direction::BottomRight, t)
        ||| self.ray_target(p, side, Direction::BottomLeft, t)
    }

    /// A pawn of `side` on `p` captures diagonally onto an enemy piece on `t`.
    pub open spec fn pawn_capture(self, p: int, side: Side, df: int, t: int) -> bool {
        &&& offset_ok(p, forward(side), df)
        &&& t == offset_square(p, forward(side), df)
        &&& self.sides[t] == opponent_of(side)
    }

    /// A pawn of `side` on `p` captures en passant the enemy pawn beside it on
    /// file offset `df`, which has just advanced two squares, by moving to `t`
    /// behind it.
    pub open spec fn en_passant_target(self, p: int, side: Side, df: int, t: int) -> bool {
        let a = offset_square(p, 0, df);
        &&& offset_ok(p, 0, df)
        &&& self.pieces[a] == Piece::Pawn
        &&& self.sides[a] == opponent_of(side)
        &&& self.last_target == a
        &&& self.last_origin == a + 16 * forward(side)
        &&& t == a + 8 * forward(side)
    }

    pub open spec fn pawn_target(self, p: int, side: Side, t: int) -> bool {
        let ahead = offset_square(p, forward(side), 0);
        ||| offset_ok(p, forward(side), 0) && t == ahead && self.is_empty(t)
        ||| rank_of(p) == pawn_home_rank(side) && self.is_empty(ahead) && t == offset_square(
            p,
            2 * forward(side),
            0,
        ) && self.is_empty(t)
        ||| self.pawn_capture(p, side, -1, t)
        ||| self.pawn_capture(p, side, 1, t)
        ||| self.en_passant_target(p, side, -1, t)
        ||| self.en_passant_target(p, side, 1, t)
    }

    /// The piece on `p` can move to `t` by its movement pattern and the
    /// board's occupancy; castling is not among these moves.
    pub open spec fn reach_target(self, p: int, t: int) -> bool {
        let side = self.sides[p];
        match self.pieces[p] {
            Piece::Rook => self.orthogonal_target(p, side, t),
            Piece::Bishop => self.diagonal_target(p, side, t),
            Piece::Queen => self.orthogonal_target(p, side, t) || self.diagonal_target(p, side, t),
            Piece::Knight => self.knight_target(p, side, t),
            Piece::King => self.king_step_target(p, side, t),
            Piece::Pawn => self.pawn_target(p, side, t),
            Piece::Empty => false,
        }
    }
}

impl Position {
    /// Adds `position` to `out` unless a piece of `side` stands there or it
    /// is listed already; the result tells whether the square is occupied,
    /// and so stops a sliding piece.
    fn push_pos_if_non_ally(&self, position: i8, side: Side, out: &mut Vec<i8>) -> (blocked: bool)
        requires
            on_board(position as int),
            self@.wf(),
            old(out)@.no_duplicates(),
        ensures
            final(out)@ == if self@.sides[position as int] != side && !lists(
                old(out)@,
                position as int,
            ) {
                old(out)@.push(position)
            } else {
                old(out)@
            },
            final(out)@.no_duplicates(),
            forall|t: int| #[trigger]
                lists(final(out)@, t) == (lists(old(out)@, t) || (self@.sides[position as int]
                    != side && t == position as int)),
            blocked == (self@.sides[position as int] != Side::Neutral),
    {
        let target_side = self.sides[position as usize];
        if target_side != side {
            push_unique(out, position);
        }
        target_side != Side::Neutral
    }

    /// Adds every square a piece of `side` sliding from `position` along `d` can stop on.
    fn push_ray(&self, position: i8, side: Side, d: Direction, out: &mut Vec<i8>)
        requires
            self@.wf(),
            old(out)@.no_duplicates(),
            on_board(position as int),
            side != Side::Neutral,
        ensures
            final(out)@.no_duplicates(),
            forall|t: int| #[trigger]
                lists(final(out)@, t) == (lists(old(out)@, t) || self@.ray_target(
                    position as int,
                    side,
                    d,
                    t,
                )),
    {
        let ghost p = position as int;
        let ghost start = out@;
        let mut n: i8 = 1;
        while n <= 7
            invariant
                1 <= n <= 8,
                self@.wf(),
                on_board(p),
                p == position,
                start == old(out)@,
                out@.no_duplicates(),
                side != Side::Neutral,
                forall|j: int|
                    1 <= j < n ==> ray_ok(p, d, j) && self@.sides[#[trigger] ray_square(p, d, j)]
                        == Side::Neutral,
                forall|t: int| #[trigger]
                    lists(out@, t) == (lists(start, t) || exists|j: int|
                        1 <= j < n && #[trigger] self@.ray_hit(p, side, d, j, t)),
            decreases 8 - n,
        {
            let (target, blocked) = step(d, position, n);
            if blocked {
                assert forall|t: int| #[trigger]
                    lists(out@, t) == (lists(start, t) || self@.ray_target(p, side, d, t)) by {
                    if self@.ray_target(p, side, d, t) {
                        let k = choose|k: int| #[trigger] self@.ray_hit(p, side, d, k, t);
                        assert(1 <= k < n);
                    }
                }
                return ;
            }
            let stop = self.push_pos_if_non_ally(target, side, out);
            if stop {
                assert forall|t: int| #[trigger]
                    lists(out@, t) == (lists(start, t) || self@.ray_target(p, side, d, t)) by {
                    if self@.ray_target(p, side, d, t) {
                        let k = choose|k: int| #[trigger] self@.ray_hit(p, side, d, k, t);
                        if k > n {
                            assert(self@.sides[ray_square(p, d, n as int)] == Side::Neutral);
                        }
                    }
                    if t == target && self@.sides[t] != side {
                        assert(self@.ray_hit(p, side, d, n as int, t));
                    }
                }
                return ;
            }
            proof {
                assert(self@.ray_hit(p, side, d, n as int, target as int));
            }
            n = n + 1;
        }
        assert forall|t: int| #[trigger]
            lists(out@, t) == (lists(start, t) || self@.ray_target(p, side, d, t)) by {
            if self@.ray_target(p, side, d, t) {
                let k = choose|k: int| #[trigger] self@.ray_hit(p, side, d, k, t);
                assert(k < 8);
            }
        }
    }

    /// Adds the square `dr` ranks and `df` files from `position`, if it is on
    /// the board and holds no piece of `side`.
    fn push_offset(&self, position: i8, side: Side, dr: i8, df: i8, out: &mut Vec<i8>)
        requires
            self@.wf(),
            old(out)@.no_duplicates(),
            on_board(position as int),
            -2 <= dr <= 2,
            -2 <= df <= 2,
        ensures
            final(out)@.no_duplicates(),
            forall|t: int| #[trigger]
                lists(final(out)@, t) == (lists(old(out)@, t) || self@.step_target(
                    position as int,
                    side,
                    dr as int,
                    df as int,
                    t,
                )),
    {
        let r = position / 8;
        let f = position % 8;
        if 0 <= r + dr && r + dr < 8 && 0 <= f + df && f + df < 8 {
            let target = (r + dr) * 8 + f + df;
            if self.sides[target as usize] != side {
                push_unique(out, target);
            }
        }
    }

    fn get_knight_possible_movements(&self, position: i8, side: Side, out: &mut Vec<i8>)
        requires
            self@.wf(),
            old(out)@.no_duplicates(),
            on_board(position as int),
        ensures
            final(out)@.no_duplicates(),
            forall|t: int| #[trigger]
                lists(final(out)@, t) == (lists(old(out)@, t) || self@.knight_target(
                    position as int,
                    side,
                    t,
                )),
    {
        self.push_offset(position, side, 1, 2, out);
        self.push_offset(position, side, 1, -2, out);
        self.push_offset(position, side, -1, 2, out);
        self.push_offset(position, side, -1, -2, out);
        self.push_offset(position, side, 2, 1, out);
        self.push_offset(position, side, 2, -1, out);
        self.push_offset(position, side, -2, 1, out);
        self.push_offset(position, side, -2, -1, out);
    }

    /// The king's single steps; castling is added separately.
    fn get_king_possible_movements(&self, position: i8, side: Side, out: &mut Vec<i8>)
        requires
            self@.wf(),
            old(out)@.no_duplicates(),
            on_board(position as int),
        ensures
            final(out)@.no_duplicates(),
            forall|t: int| #[trigger]
                lists(final(out)@, t) == (lists(old(out)@, t) || self@.king_step_target(
                    position as int,
                    side,
                    t,
                )),
    {
        self.push_offset(position, side, 1, 1, out);
        self.push_offset(position, side, 1, 0, out);
        self.push_offset(position, side, 1, -1, out);
        self.push_offset(position, side, 0, 1, out);
        self.push_offset(position, side, 0, -1, out);
        self.push_offset(position, side, -1, 1, out);
        self.push_offset(position, side, -1, 0, out);
        self.push_offset(position, side, -1, -1, out);
    }

    fn get_piece_orthogonal_movements(&self, position: i8, side: Side, out: &mut Vec<i8>)
        requires
            self@.wf(),
            old(out)@.no_duplicates(),
            on_board(position as int),
            side != Side::Neutral,
        ensures
            final(out)@.no_duplicates(),
            forall|t: int| #[trigger]
                lists(final(out)@, t) == (lists(old(out)@, t) || self@.orthogonal_target(
                    position as int,
                    side,
                    t,
                )),
    {
        self.push_ray(position, side, Direction::Right, out);
        self.push_ray(position, side, Direction::Left, out);
        self.push_ray(position, side, Direction::Up, out);
        self.push_ray(position, side, Direction::Down, out);
    }

    fn get_piece_diagonal_movements(&self, position: i8, side: Side, out: &mut Vec<i8>)
        requires
            self@.wf(),
            old(out)@.no_duplicates(),
            on_board(position as int),
            side != Side::Neutral,
        ensures
            final(out)@.no_duplicates(),
            forall|t: int| #[trigger]
                lists(final(out)@, t) == (lists(old(out)@, t) || self@.diagonal_target(
                    position as int,
                    side,
                    t,
                )),
    {
        self.push_ray(position, side, Direction::TopRight, out);
        self.push_ray(position, side, Direction::TopLeft, out);
        self.push_ray(position, side, Direction::BottomRight, out);
        self.push_ray(position, side, Direction::BottomLeft, out);
    }

    /// Adds the en passant capture of the pawn beside `position` on file offset `df`.
    fn push_en_passant(&self, position: i8, side: Side, df: i8, out: &mut Vec<i8>)
        requires
            self@.wf(),
            old(out)@.no_duplicates(),
            on_board(position as int),
            side != Side::Neutral,
            df == -1 || df == 1,
            offset_ok(position as int, 0, df as int),
        ensures
            final(out)@.no_duplicates(),
            forall|t: int| #[trigger]
                lists(final(out)@, t) == (lists(old(out)@, t) || self@.en_passant_target(
                    position as int,
                    side,
                    df as int,
                    t,
                )),
    {
        let dr: i8 = if side == Side::White {
            1
        } else {
            -1
        };
        let beside = position + df;
        if self.pieces[beside as usize] == Piece::Pawn && self.sides[beside as usize]
            == side.opponent() && self.last_move_target == beside && self.last_move_origin
            == beside + 16 * dr {
            let target = beside + 8 * dr;
            push_unique(out, target);
        }
    }

    fn get_pawn_possible_movements(&self, position: i8, side: Side, out: &mut Vec<i8>)
        requires
            self@.wf(),
            old(out)@.no_duplicates(),
            on_board(position as int),
            side != Side::Neutral,
        ensures
            final(out)@.no_duplicates(),
            forall|t: int| #[trigger]
                lists(final(out)@, t) == (lists(old(out)@, t) || self@.pawn_target(
                    position as int,
                    side,
                    t,
                )),
    {
        let ghost p = position as int;
        let dr: i8 = if side == Side::White {
            1
        } else {
            -1
        };
        let r = position / 8;
        let f = position % 8;
        let ghost start = out@;
        if 0 <= r + dr && r + dr < 8 {
            let ahead = position + 8 * dr;
            if self.pieces[ahead as usize] == Piece::Empty {
                push_unique(out, ahead);
                let home: i8 = if side == Side::White {
                    1
                } else {
                    6
                };
                if r == home {
                    let two = ahead + 8 * dr;
                    if self.pieces[two as usize] == Piece::Empty {
                        push_unique(out, two);
                    }
                }
            }
            let enemy = side.opponent();
            if f > 0 && self.sides[(ahead - 1) as usize] == enemy {
                push_unique(out, ahead - 1);
            }
            if f < 7 && self.sides[(ahead + 1) as usize] == enemy {
                push_unique(out, ahead + 1);
            }
        }
        let ghost mid = out@;
        assert forall|t: int| #[trigger]
            lists(mid, t) == (lists(start, t) || {
                let ahead = offset_square(p, forward(side), 0);
                ||| offset_ok(p, forward(side), 0) && t == ahead && self@.is_empty(t)
                ||| rank_of(p) == pawn_home_rank(side) && self@.is_empty(ahead) && t
                    == offset_square(p, 2 * forward(side), 0) && self@.is_empty(t)
                ||| self@.pawn_capture(p, side, -1, t)
                ||| self@.pawn_capture(p, side, 1, t)
            }) by {}
        if f > 0 {
            self.push_en_passant(position, side, -1, out);
        }
        if f < 7 {
            self.push_en_passant(position, side, 1, out);
        }
    }

    /// The squares the piece on `position` can reach by its movement pattern,
    /// castling aside.
    pub(crate) fn reach_moves(&self, position: i8) -> (r: Vec<i8>)
        requires
            self@.wf(),
            on_board(position as int),
        ensures
            forall|t: int| #[trigger] lists(r@, t) == self@.reach_target(position as int, t),
            r@.no_duplicates(),
    {
        let side = self.sides[position as usize];
        let mut out: Vec<i8> = Vec::new();
        assert(forall|t: int| !#[trigger] lists(out@, t));
        assert(out@.no_duplicates());
        match self.pieces[position as usize] {
            Piece::Pawn => self.get_pawn_possible_movements(position, side, &mut out),
            Piece::Rook => self.get_piece_orthogonal_movements(position, side, &mut out),
            Piece::Knight => self.get_knight_possible_movements(position, side, &mut out),
            Piece::Queen => {
                self.get_piece_orthogonal_movements(position, side, &mut out);
                self.get_piece_diagonal_movements(position, side, &mut out);
            },
            Piece::King => self.get_king_possible_movements(position, side, &mut out),
            Piece::Bishop => self.get_piece_diagonal_movements(position, side, &mut out),
            Piece::Empty => {},
        }
        out
    }
}

} // verus!
