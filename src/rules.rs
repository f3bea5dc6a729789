//! Attacks, castling, simulated moves and the legality filter: a move is
//! legal when, played out on a copy of the position, it leaves the mover's
//! king unattacked.

use vstd::prelude::*;
use crate::board::{file_of, on_board};
use crate::movegen::{
    contains, forward, king_home, lemma_lists_push, lists, push_unique, Position, PositionModel,
};
use crate::types::{opponent_of, Piece, Side};

verus! {

/// `s` with the value on `from` moved to `to`, and `from` left `blank`.
pub open spec fn relocate<T>(s: Seq<T>, from: int, to: int, blank: T) -> Seq<T> {
    s.update(to, s[from]).update(from, blank)
}

pub open spec fn int_option(o: Option<i8>) -> Option<int> {
    match o {
        Some(v) => Some(v as int),
        None => None,
    }
}

pub open spec fn pair_option(o: Option<(i8, i8)>) -> Option<(int, int)> {
    match o {
        Some((a, b)) => Some((a as int, b as int)),
        None => None,
    }
}

impl PositionModel {
    /// A piece of the side not to move can reach `sq`.
    pub open spec fn attacked(self, sq: int) -> bool {
        exists|q: int| on_board(q) && self.sides[q] != self.turn && #[trigger] self.reach_target(q, sq)
    }

    /// The rook of `side` stands on square `r`.
    pub open spec fn rook_on(self, r: int, side: Side) -> bool {
        self.pieces[r] == Piece::Rook && self.sides[r] == side
    }

    /// The king of the side to move, on `p`, can castle to `t`: neither it
    /// nor the rook on that wing has lost its right, that rook stands on its
    /// square, the squares between them are empty, and the king's start, the
    /// square it crosses and its destination are unattacked.
    pub open spec fn castle_target(self, p: int, t: int) -> bool {
        let side = self.turn;
        let h = king_home(side);
        &&& p == h
        &&& self.pieces[p] == Piece::King
        &&& self.sides[p] == side
        &&& !self.king_moved(side)
        &&& !self.attacked(h)
        &&& {
            ||| t == h - 2 && !self.queen_rook_moved(side) && self.rook_on(h - 4, side)
                && self.is_empty(h - 1) && self.is_empty(
                h - 2,
            ) && self.is_empty(h - 3) && !self.attacked(h - 1) && !self.attacked(h - 2)
            ||| t == h + 2 && !self.king_rook_moved(side) && self.rook_on(h + 3, side)
                && self.is_empty(h + 1) && self.is_empty(
                h + 2,
            ) && !self.attacked(h + 1) && !self.attacked(h + 2)
        }
    }

    /// The piece on `p` can move to `t`, ignoring whether its own king is exposed.
    pub open spec fn pseudo_target(self, p: int, t: int) -> bool {
        self.reach_target(p, t) || self.castle_target(p, t)
    }

    /// The square of the pawn that moving `o` to `t` captures en passant, if
    /// any: a pawn of the side to move steps diagonally behind an enemy pawn
    /// that has just advanced two squares.
    pub open spec fn en_passant_capture(self, o: int, t: int) -> Option<int> {
        let side = self.sides[o];
        let c = t - 8 * forward(side);
        if self.pieces[o] == Piece::Pawn && side == self.turn && (file_of(t) - file_of(o) == 1 || file_of(o) - file_of(
            t,
        ) == 1) && on_board(c) && self.pieces[c] == Piece::Pawn
            && self.sides[c] == opponent_of(side) && self.last_target == c && self.last_origin == t
            + 8 * forward(side) {
            Some(c)
        } else {
            None
        }
    }

    /// The rook's origin and destination when moving `o` to `t` castles.
    pub open spec fn castle_rook(self, o: int, t: int) -> Option<(int, int)> {
        let side = self.sides[o];
        let h = king_home(side);
        if self.pieces[o] == Piece::King && o == h && !self.king_moved(side) {
            if t == h - 2 && !self.queen_rook_moved(side) && self.rook_on(h - 4, side) {
                Some((h - 4, h - 1))
            } else if t == h + 2 && !self.king_rook_moved(side) && self.rook_on(h + 3, side) {
                Some((h + 3, h + 1))
            } else {
                None
            }
        } else {
            None
        }
    }

    /// The board after moving `o` to `t` with its side effects (en passant
    /// capture, castling rook), and the king's square updated if it moved.
    /// Turn, rights and last move stay as they were.
    pub open spec fn simulate(self, o: int, t: int) -> PositionModel {
        let p1 = relocate(self.pieces, o, t, Piece::Empty);
        let s1 = relocate(self.sides, o, t, Side::Neutral);
        let p2 = match self.en_passant_capture(o, t) {
            Some(c) => p1.update(c, Piece::Empty),
            None => p1,
        };
        let s2 = match self.en_passant_capture(o, t) {
            Some(c) => s1.update(c, Side::Neutral),
            None => s1,
        };
        let p3 = match self.castle_rook(o, t) {
            Some((f, d)) => relocate(p2, f, d, Piece::Empty),
            None => p2,
        };
        let s3 = match self.castle_rook(o, t) {
            Some((f, d)) => relocate(s2, f, d, Side::Neutral),
            None => s2,
        };
        let king = self.pieces[o] == Piece::King;
        PositionModel {
            pieces: p3,
            sides: s3,
            turn: self.turn,
            castle: self.castle,
            white_king: if king && self.sides[o] == Side::White {
                t
            } else {
                self.white_king
            },
            black_king: if king && self.sides[o] == Side::Black {
                t
            } else {
                self.black_king
            },
            last_origin: self.last_origin,
            last_target: self.last_target,
        }
    }

    /// Playing `o` to `t` leaves the king of the side to move attacked.
    pub open spec fn exposes_king(self, o: int, t: int) -> bool {
        let s = self.simulate(o, t);
        s.attacked(s.king_of(self.turn))
    }

    /// Keeps the targets whose move from `o` leaves the mover's king unattacked.
    pub open spec fn keeps_king_safe(self, o: int) -> spec_fn(i8) -> bool {
        |t: i8| !self.exposes_king(o, t as int)
    }

    /// Moving the piece on `p` to `t` is a legal move of the side to move.
    pub open spec fn legal_target(self, p: int, t: int) -> bool {
        &&& on_board(p)
        &&& self.sides[p] == self.turn
        &&& self.pseudo_target(p, t)
        &&& !self.exposes_king(p, t)
    }

    pub open spec fn has_legal_move(self) -> bool {
        exists|p: int, t: int| #[trigger] self.legal_target(p, t)
    }

    /// A legal move goes from a square to another square of the board.
    pub proof fn lemma_legal_target_shape(self, p: int, t: int)
        requires
            self.wf(),
            self.legal_target(p, t),
        ensures
            on_board(t),
            t != p,
    {
    }

    /// A piece's reachable squares lie on the board.
    pub proof fn lemma_reach_on_board(self, p: int, t: int)
        requires
            self.wf(),
            on_board(p),
            self.reach_target(p, t),
        ensures
            on_board(t),
    {
    }
}

impl Position {
    /// Whether a piece of the side not to move can reach `pos`.
    pub(crate) fn is_checked(&self, pos: i8) -> (r: bool)
        requires
            self@.wf(),
        ensures
            r == self@.attacked(pos as int),
    {
        let mut i: i8 = 0;
        while i < 64
            invariant
                0 <= i <= 64,
                self@.wf(),
                forall|q: int|
                    0 <= q < i && self@.sides[q] != self@.turn ==> !#[trigger] self@.reach_target(
                        q,
                        pos as int,
                    ),
            decreases 64 - i,
        {
            if self.sides[i as usize] != self.turn {
                let moves = self.reach_moves(i);
                if contains(&moves, pos) {
                    return true;
                }
            }
            i = i + 1;
        }
        false
    }

    /// Both squares are empty and unattacked.
    fn can_castle(&self, a: i8, b: i8) -> (r: bool)
        requires
            self@.wf(),
            on_board(a as int),
            on_board(b as int),
        ensures
            r == (self@.is_empty(a as int) && self@.is_empty(b as int) && !self@.attacked(a as int)
                && !self@.attacked(b as int)),
    {
        self.pieces[a as usize] == Piece::Empty && self.pieces[b as usize] == Piece::Empty
            && !self.is_checked(a) && !self.is_checked(b)
    }

    /// Adds the castling moves of the king on `position`, when it is the
    /// unmoved king of the side to move.
    fn add_castling_moves(&self, position: i8, out: &mut Vec<i8>)
        requires
            self@.wf(),
            old(out)@.no_duplicates(),
            on_board(position as int),
        ensures
            final(out)@.no_duplicates(),
            forall|t: int| #[trigger]
                lists(final(out)@, t) == (lists(old(out)@, t) || self@.castle_target(
                    position as int,
                    t,
                )),
    {
        let side = self.turn;
        let white = side == Side::White;
        let home: i8 = if white {
            4
        } else {
            60
        };
        let king_moved = if white {
            self.castle_info.white_king_moved
        } else {
            self.castle_info.black_king_moved
        };
        if position == home && self.pieces[position as usize] == Piece::King
            && self.sides[position as usize] == side && !king_moved && !self.is_checked(home) {
            let queen_rook_moved = if white {
                self.castle_info.white_rook_one_moved
            } else {
                self.castle_info.black_rook_one_moved
            };
            let king_rook_moved = if white {
                self.castle_info.white_rook_two_moved
            } else {
                self.castle_info.black_rook_two_moved
            };
            if !queen_rook_moved && self.pieces[(home - 4) as usize] == Piece::Rook && self.sides[(
            home - 4) as usize] == side && self.pieces[(home - 3) as usize] == Piece::Empty
                && self.can_castle(home - 1, home - 2) {
                push_unique(out, home - 2);
            }
            if !king_rook_moved && self.pieces[(home + 3) as usize] == Piece::Rook && self.sides[(
            home + 3) as usize] == side && self.can_castle(home + 1, home + 2) {
                push_unique(out, home + 2);
            }
        }
    }

    /// The square of the pawn captured en passant by moving `origin` to `target`.
    fn get_en_passant_move(&self, origin: i8, target: i8) -> (r: Option<i8>)
        requires
            self@.wf(),
            on_board(origin as int),
            on_board(target as int),
        ensures
            int_option(r) == self@.en_passant_capture(origin as int, target as int),
    {
        let dr: i8 = if self.sides[origin as usize] == Side::White {
            1
        } else {
            -1
        };
        let c = target - 8 * dr;
        let file_step = target % 8 - origin % 8;
        if self.pieces[origin as usize] == Piece::Pawn && self.sides[origin as usize] == self.turn
            && (file_step == 1 || file_step == -1) && 0 <= c && c < 64 && self.pieces[c as usize]
            == Piece::Pawn && self.sides[c as usize] == self.sides[origin as usize].opponent()
            && self.last_move_target == c && self.last_move_origin == target + 8 * dr {
            Some(c)
        } else {
            None
        }
    }

    /// The rook's origin and destination when moving `origin` to `target` castles.
    fn get_side_castling_move(&self, origin: i8, target: i8) -> (r: Option<(i8, i8)>)
        requires
            self@.wf(),
            on_board(origin as int),
        ensures
            pair_option(r) == self@.castle_rook(origin as int, target as int),
    {
        let side = self.sides[origin as usize];
        let white = side == Side::White;
        let home: i8 = if white {
            4
        } else {
            60
        };
        let (king_moved, rook_one_moved, rook_two_moved) = if white {
            (
                self.castle_info.white_king_moved,
                self.castle_info.white_rook_one_moved,
                self.castle_info.white_rook_two_moved,
            )
        } else {
            (
                self.castle_info.black_king_moved,
                self.castle_info.black_rook_one_moved,
                self.castle_info.black_rook_two_moved,
            )
        };
        if self.pieces[origin as usize] == Piece::King && origin == home && !king_moved {
            let rook_one_there = self.pieces[(home - 4) as usize] == Piece::Rook
                && self.sides[(home - 4) as usize] == side;
            let rook_two_there = self.pieces[(home + 3) as usize] == Piece::Rook
                && self.sides[(home + 3) as usize] == side;
            if target == home - 2 && !rook_one_moved && rook_one_there {
                return Some((home - 4, home - 1));
            } else if target == home + 2 && !rook_two_moved && rook_two_there {
                return Some((home + 3, home + 1));
            }
        }
        None
    }

    /// A copy of this position with `origin` moved to `target`, side effects
    /// included; the position itself is left untouched.
    pub(crate) fn simulate_move(&self, origin: i8, target: i8) -> (r: Position)
        requires
            self@.wf(),
            on_board(origin as int),
            on_board(target as int),
            origin != target,
        ensures
            r@ == self@.simulate(origin as int, target as int),
            r@.wf(),
    {
        let ep = self.get_en_passant_move(origin, target);
        let rook = self.get_side_castling_move(origin, target);
        let mut r = *self;
        let o = origin as usize;
        let t = target as usize;
        r.pieces[t] = self.pieces[o];
        r.sides[t] = self.sides[o];
        r.pieces[o] = Piece::Empty;
        r.sides[o] = Side::Neutral;
        match ep {
            Some(c) => {
                r.pieces[c as usize] = Piece::Empty;
                r.sides[c as usize] = Side::Neutral;
            },
            None => {},
        }
        match rook {
            Some((f, d)) => {
                let (fu, du) = (f as usize, d as usize);
                let (moved_piece, moved_side) = (r.pieces[fu], r.sides[fu]);
                r.pieces[du] = moved_piece;
                r.sides[du] = moved_side;
                r.pieces[fu] = Piece::Empty;
                r.sides[fu] = Side::Neutral;
            },
            None => {},
        }
        if self.pieces[o] == Piece::King {
            if self.sides[o] == Side::White {
                r.white_king_pos = target;
            } else if self.sides[o] == Side::Black {
                r.black_king_pos = target;
            }
        }
        let ghost m = self@.simulate(origin as int, target as int);
        assert(r@.pieces =~= m.pieces);
        assert(r@.sides =~= m.sides);
        r
    }

    /// Keeps the targets whose move leaves the mover's king unattacked.
    fn filter_out_moves_causing_self_check(&self, origin: i8, to_filter: Vec<i8>) -> (r: Vec<i8>)
        requires
            self@.wf(),
            on_board(origin as int),
            to_filter@.no_duplicates(),
            forall|i: int|
                0 <= i < to_filter@.len() ==> on_board(#[trigger] to_filter@[i] as int)
                    && to_filter@[i] != origin,
        ensures
            r@ == to_filter@.filter(self@.keeps_king_safe(origin as int)),
            r@.no_duplicates(),
            forall|t: int| #[trigger]
                lists(r@, t) == (lists(to_filter@, t) && !self@.exposes_king(origin as int, t)),
    {
        let mut to_return: Vec<i8> = Vec::new();
        let mut i: usize = 0;
        while i < to_filter.len()
            invariant
                self@.wf(),
                on_board(origin as int),
                i <= to_filter@.len(),
                forall|k: int|
                    0 <= k < to_filter@.len() ==> on_board(#[trigger] to_filter@[k] as int)
                        && to_filter@[k] != origin,
                to_filter@.no_duplicates(),
                to_return@.no_duplicates(),
                to_return@ == to_filter@.subrange(0, i as int).filter(
                    self@.keeps_king_safe(origin as int),
                ),
                forall|t: int| #[trigger]
                    lists(to_return@, t) == (lists(to_filter@.subrange(0, i as int), t)
                        && !self@.exposes_king(origin as int, t)),
            decreases to_filter@.len() - i,
        {
            let target = to_filter[i];
            let sim = self.simulate_move(origin, target);
            let king = if self.turn == Side::Black {
                sim.black_king_pos
            } else {
                sim.white_king_pos
            };
            let was_checked = sim.is_checked(king);
            proof {
                lemma_lists_push(to_filter@.subrange(0, i as int), target);
                assert(to_filter@.subrange(0, i as int).push(target) =~= to_filter@.subrange(
                    0,
                    i as int + 1,
                ));
                lemma_lists_push(to_return@, target);
                let pre = to_filter@.subrange(0, i as int);
                let pre1 = to_filter@.subrange(0, i as int + 1);
                assert(pre1.drop_last() =~= pre);
                assert(pre1.last() == target);
                reveal(Seq::filter);
                if lists(to_return@, target as int) {
                    let k = choose|k: int| 0 <= k < pre.len() && pre[k] as int == target as int;
                    assert(to_filter@[k] == to_filter@[i as int]);
                }
            }
            if !was_checked {
                to_return.push(target);
            }
            i = i + 1;
        }
        assert(to_filter@.subrange(0, i as int) =~= to_filter@);
        to_return
    }

    /// The legal targets of the piece on `position`; none unless it belongs
    /// to the side to move.
    pub(crate) fn legal_moves(&self, position: i8) -> (r: Vec<i8>)
        requires
            self@.wf(),
            on_board(position as int),
        ensures
            forall|t: int| #[trigger] lists(r@, t) == self@.legal_target(position as int, t),
            r@.no_duplicates(),
    {
        if self.sides[position as usize] != self.turn {
            let none: Vec<i8> = Vec::new();
            assert(forall|t: int| !#[trigger] lists(none@, t));
            assert(none@.no_duplicates());
            return none;
        }
        let mut candidates = self.reach_moves(position);
        self.add_castling_moves(position, &mut candidates);
        assert forall|i: int| 0 <= i < candidates@.len() implies on_board(
            #[trigger] candidates@[i] as int,
        ) && candidates@[i] != position by {
            assert(lists(candidates@, candidates@[i] as int));
            if self@.reach_target(position as int, candidates@[i] as int) {
                self@.lemma_reach_on_board(position as int, candidates@[i] as int);
            }
        }
        self.filter_out_moves_causing_self_check(position, candidates)
    }

    /// Whether the side to move has any legal move.
    pub(crate) fn has_legal_move(&self) -> (r: bool)
        requires
            self@.wf(),
        ensures
            r == self@.has_legal_move(),
    {
        let mut i: i8 = 0;
        while i < 64
            invariant
                0 <= i <= 64,
                self@.wf(),
                forall|q: int, t: int| 0 <= q < i ==> !#[trigger] self@.legal_target(q, t),
            decreases 64 - i,
        {
            let moves = self.legal_moves(i);
            if moves.len() > 0 {
                assert(lists(moves@, moves@[0] as int));
                assert(self@.legal_target(i as int, moves@[0] as int));
                return true;
            }
            assert forall|t: int| !#[trigger] self@.legal_target(i as int, t) by {
                if self@.legal_target(i as int, t) {
                    assert(lists(moves@, t));
                }
            }
            i = i + 1;
        }
        false
    }
}

} // verus!
