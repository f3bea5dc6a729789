//! The game controller: owns the position, the fifty-move counter, a
//! pending promotion and the history of boards, and commits moves.

use vstd::prelude::*;
use crate::board::{file_of, on_board, rank_of};
use crate::movegen::{contains, king_home, lists, Position, PositionModel};
use crate::types::{opponent_of, BoardState, CastleInfo, ChessError, Piece, Side};

verus! {

/// The rank on which a pawn of `side` promotes.
pub open spec fn last_rank(side: Side) -> int {
    if side == Side::White {
        7
    } else {
        0
    }
}

pub open spec fn promotion_state(side: Side) -> BoardState {
    if side == Side::White {
        BoardState::WhitePromotion
    } else {
        BoardState::BlackPromotion
    }
}

/// The pieces a pawn may be promoted to.
pub open spec fn promotion_choice(piece: Piece) -> bool {
    matches!(piece, Piece::Queen | Piece::Rook | Piece::Bishop | Piece::Knight)
}

/// The piece a file starts with on the back rank.
pub open spec fn back_rank_piece(f: int) -> Piece {
    if f == 0 || f == 7 {
        Piece::Rook
    } else if f == 1 || f == 6 {
        Piece::Knight
    } else if f == 2 || f == 5 {
        Piece::Bishop
    } else if f == 3 {
        Piece::Queen
    } else {
        Piece::King
    }
}

/// What stands on square `i` in the starting position.
pub open spec fn initial_piece(i: int) -> Piece {
    let r = rank_of(i);
    if r == 0 || r == 7 {
        back_rank_piece(file_of(i))
    } else if r == 1 || r == 6 {
        Piece::Pawn
    } else {
        Piece::Empty
    }
}

/// Who owns square `i` in the starting position.
pub open spec fn initial_side(i: int) -> Side {
    let r = rank_of(i);
    if r <= 1 {
        Side::White
    } else if r >= 6 {
        Side::Black
    } else {
        Side::Neutral
    }
}

/// Castling rights once a move has touched square `o`: a king or rook
/// leaving its starting square, or captured there, loses them for good.
pub open spec fn rights_after(c: CastleInfo, o: int) -> CastleInfo {
    CastleInfo {
        white_rook_one_moved: c.white_rook_one_moved || o == 0,
        white_rook_two_moved: c.white_rook_two_moved || o == 7,
        black_rook_one_moved: c.black_rook_one_moved || o == 56,
        black_rook_two_moved: c.black_rook_two_moved || o == 63,
        white_king_moved: c.white_king_moved || o == king_home(Side::White),
        black_king_moved: c.black_king_moved || o == king_home(Side::Black),
    }
}

impl PositionModel {
    /// A pawn of `side` stands on the rank where it promotes.
    pub open spec fn promotion_waiting(self, side: Side) -> bool {
        exists|i: int|
            0 <= i < 64 && rank_of(i) == last_rank(side) && #[trigger] self.pieces[i] == Piece::Pawn
                && self.sides[i] == side
    }

    /// How the position stands for the side to move, given the fifty-move counter.
    #[verifier::opaque]
    pub open spec fn classify(self, fifty: int) -> BoardState {
        let side = self.turn;
        if self.attacked(self.king_of(side)) {
            if self.has_legal_move() {
                BoardState::Checked(side)
            } else {
                BoardState::CheckMated(side)
            }
        } else if fifty == 0 {
            BoardState::DrawBy50Rule
        } else if !self.has_legal_move() {
            BoardState::DrawByStaleMate
        } else if self.promotion_waiting(opponent_of(side)) {
            promotion_state(opponent_of(side))
        } else {
            BoardState::Default
        }
    }
}

/// A game in progress.
pub struct Game {
    pub position: Position,
    pub fifty_move_rule: i8,
    /// The square of a pawn awaiting its promotion piece, or -1.
    pub pawn_awaiting_promotion_pos: i8,
    pub history_board_pieces: Vec<[Piece; 64]>,
    pub history_board_pieces_sides: Vec<[Side; 64]>,
}

/// The mathematical view of a `Game`.
pub struct GameModel {
    pub position: PositionModel,
    pub fifty: int,
    pub pending: int,
    pub history_pieces: Seq<Seq<Piece>>,
    pub history_sides: Seq<Seq<Side>>,
}

impl View for Game {
    type V = GameModel;

    open spec fn view(&self) -> GameModel {
        GameModel {
            position: self.position@,
            fifty: self.fifty_move_rule as int,
            pending: self.pawn_awaiting_promotion_pos as int,
            history_pieces: self.history_board_pieces@.map_values(|a: [Piece; 64]| a@),
            history_sides: self.history_board_pieces_sides@.map_values(|a: [Side; 64]| a@),
        }
    }
}

impl GameModel {
    /// The position is well formed, each side's king stands on the square
    /// recorded for it, the counter lies in 0..=50, both histories have one
    /// entry per move, and a pending promotion names a pawn of the side that
    /// has just moved.
    pub open spec fn wf(self) -> bool {
        &&& self.position.wf()
        &&& self.position.pieces[self.position.white_king] == Piece::King
        &&& self.position.sides[self.position.white_king] == Side::White
        &&& self.position.pieces[self.position.black_king] == Piece::King
        &&& self.position.sides[self.position.black_king] == Side::Black
        &&& 0 <= self.fifty <= 50
        &&& self.history_pieces.len() == self.history_sides.len()
        &&& (self.pending == -1 || {
            &&& on_board(self.pending)
            &&& self.position.pieces[self.pending] == Piece::Pawn
            &&& self.position.sides[self.pending] == opponent_of(self.position.turn)
        })
    }

    /// What committing the move from `o` to `t` reports.
    pub open spec fn commit_result(self, o: int, t: int) -> BoardState {
        if self.promotes(o, t) {
            promotion_state(self.position.turn)
        } else {
            let g = self.commit(o, t);
            g.position.classify(g.fifty)
        }
    }

    /// A move may be committed: the game is not drawn by the fifty-move
    /// rule, no promotion is pending, the move is legal, and it does not
    /// take a king (which would leave a side without one).
    pub open spec fn accepts(self, o: int, t: int) -> bool {
        &&& self.fifty > 0
        &&& self.pending == -1
        &&& self.position.legal_target(o, t)
        &&& self.position.pieces[t] != Piece::King
    }

    /// The game after the pending pawn becomes `piece`.
    pub open spec fn promote(self, piece: Piece) -> GameModel {
        let pos = self.position;
        GameModel {
            position: PositionModel {
                pieces: pos.pieces.update(self.pending, piece),
                sides: pos.sides.update(self.pending, opponent_of(pos.turn)),
                ..pos
            },
            pending: -1,
            ..self
        }
    }

    /// A promotion request is refused: none is pending, or the piece is not one a pawn becomes.
    pub open spec fn promotion_refused(self, piece: Piece) -> bool {
        self.pending == -1 || !promotion_choice(piece)
    }

    /// The game after each move of `moves` in turn, as `do_move` plays them:
    /// an accepted move is committed, a refused one changes nothing.
    pub open spec fn replay(self, moves: Seq<(int, int)>) -> GameModel
        decreases moves.len(),
    {
        if moves.len() == 0 {
            self
        } else {
            let g = self.replay(moves.drop_last());
            let (o, t) = moves.last();
            if on_board(o) && on_board(t) && g.accepts(o, t) {
                g.commit(o, t)
            } else {
                g
            }
        }
    }

    /// Snapshots `i` and `j` of the history hold the same pieces and sides.
    pub open spec fn same_snapshot(self, i: int, j: int) -> bool {
        self.history_pieces[i] == self.history_pieces[j] && self.history_sides[i]
            == self.history_sides[j]
    }

    /// How many snapshots before `j` equal snapshot `i`.
    pub open spec fn matches_before(self, i: int, j: int) -> nat
        decreases j,
    {
        if j <= 0 {
            0
        } else {
            self.matches_before(i, j - 1) + if self.same_snapshot(i, j - 1) {
                1nat
            } else {
                0nat
            }
        }
    }

    /// How many pairs of equal snapshots the first `n` snapshots hold.
    pub open spec fn repeated_pairs(self, n: int) -> nat
        decreases n,
    {
        if n <= 0 {
            0
        } else {
            self.repeated_pairs(n - 1) + self.matches_before(n - 1, n - 1)
        }
    }

    /// Counting matches over a longer prefix never gives fewer.
    pub proof fn lemma_matches_before_grows(self, i: int, j: int, k: int)
        requires
            0 <= j <= k,
        ensures
            self.matches_before(i, j) <= self.matches_before(i, k),
        decreases k - j,
    {
        if j < k {
            self.lemma_matches_before_grows(i, j, k - 1);
        }
    }

    /// Counting pairs over a longer prefix never gives fewer.
    pub proof fn lemma_repeated_pairs_grows(self, m: int, n: int)
        requires
            0 <= m <= n,
        ensures
            self.repeated_pairs(m) <= self.repeated_pairs(n),
        decreases n - m,
    {
        if m < n {
            self.lemma_repeated_pairs_grows(m, n - 1);
        }
    }

    /// The move from `o` to `t` captures or moves a pawn.
    pub open spec fn resets_fifty(self, o: int, t: int) -> bool {
        self.position.pieces[t] != Piece::Empty || self.position.pieces[o] == Piece::Pawn
    }

    /// The move from `o` to `t` takes a pawn to its promotion rank.
    pub open spec fn promotes(self, o: int, t: int) -> bool {
        self.position.pieces[o] == Piece::Pawn && rank_of(t) == last_rank(self.position.turn)
    }

    /// The game after committing the move from `o` to `t`.
    pub open spec fn commit(self, o: int, t: int) -> GameModel {
        let pos = self.position;
        let sim = pos.simulate(o, t);
        let next = PositionModel {
            pieces: sim.pieces,
            sides: sim.sides,
            turn: opponent_of(pos.turn),
            castle: rights_after(rights_after(pos.castle, o), t),
            white_king: sim.white_king,
            black_king: sim.black_king,
            last_origin: o,
            last_target: t,
        };
        GameModel {
            position: next,
            fifty: if self.resets_fifty(o, t) {
                50
            } else {
                self.fifty - 1
            },
            pending: if self.promotes(o, t) {
                t
            } else {
                -1
            },
            history_pieces: self.history_pieces.push(sim.pieces),
            history_sides: self.history_sides.push(sim.sides),
        }
    }
}

impl Game {
    pub open spec fn wf(&self) -> bool {
        self@.wf()
    }

    /// A game at the standard starting position, White to move.
    pub fn new() -> (r: Self)
        ensures
            r.wf(),
            forall|i: int| 0 <= i < 64 ==> #[trigger] r@.position.pieces[i] == initial_piece(i),
            forall|i: int| 0 <= i < 64 ==> #[trigger] r@.position.sides[i] == initial_side(i),
            r@.position.turn == Side::White,
            r@.position.castle == (CastleInfo {
                white_rook_one_moved: false,
                white_rook_two_moved: false,
                black_rook_one_moved: false,
                black_rook_two_moved: false,
                white_king_moved: false,
                black_king_moved: false,
            }),
            r@.position.white_king == 4,
            r@.position.black_king == 60,
            r@.position.last_origin == -1,
            r@.position.last_target == -1,
            r@.fifty == 50,
            r@.pending == -1,
            r@.history_pieces.len() == 0,
    {
        let mut pieces = [Piece::Empty; 64];
        let mut sides = [Side::Neutral; 64];
        let mut f: usize = 0;
        while f < 8
            invariant
                f <= 8,
                forall|i: int|
                    0 <= i < 64 ==> #[trigger] pieces@[i] == if file_of(i) < f {
                        initial_piece(i)
                    } else {
                        Piece::Empty
                    },
                forall|i: int|
                    0 <= i < 64 ==> #[trigger] sides@[i] == if file_of(i) < f {
                        initial_side(i)
                    } else {
                        Side::Neutral
                    },
            decreases 8 - f,
        {
            let back = if f == 0 || f == 7 {
                Piece::Rook
            } else if f == 1 || f == 6 {
                Piece::Knight
            } else if f == 2 || f == 5 {
                Piece::Bishop
            } else if f == 3 {
                Piece::Queen
            } else {
                Piece::King
            };
            pieces[f] = back;
            pieces[8 + f] = Piece::Pawn;
            pieces[48 + f] = Piece::Pawn;
            pieces[56 + f] = back;
            sides[f] = Side::White;
            sides[8 + f] = Side::White;
            sides[48 + f] = Side::Black;
            sides[56 + f] = Side::Black;
            f = f + 1;
        }
        let r = Game {
            position: Position {
                pieces,
                sides,
                turn: Side::White,
                castle_info: CastleInfo {
                    white_rook_one_moved: false,
                    white_rook_two_moved: false,
                    black_rook_one_moved: false,
                    black_rook_two_moved: false,
                    white_king_moved: false,
                    black_king_moved: false,
                },
                white_king_pos: 4,
                black_king_pos: 60,
                last_move_origin: -1,
                last_move_target: -1,
            },
            fifty_move_rule: 50,
            pawn_awaiting_promotion_pos: -1,
            history_board_pieces: Vec::new(),
            history_board_pieces_sides: Vec::new(),
        };
        r
    }

    fn get_curr_turn_king_pos(&self) -> (r: i8)
        requires
            self.wf(),
        ensures
            r as int == self@.position.king_of(self@.position.turn),
            on_board(r as int),
    {
        if self.position.turn == Side::Black {
            self.position.black_king_pos
        } else {
            self.position.white_king_pos
        }
    }

    /// Whether a pawn of `side` stands on its promotion rank.
    fn rank_contains_pawn(&self, side: Side) -> (r: bool)
        requires
            self.wf(),
        ensures
            r == self@.position.promotion_waiting(side),
    {
        let start: usize = if side == Side::White {
            56
        } else {
            0
        };
        let mut i: usize = start;
        while i < start + 8
            invariant
                start == 0 || start == 56,
                start == 56 <==> side == Side::White,
                start <= i <= start + 8,
                self.wf(),
                forall|k: int|
                    start <= k < i ==> !(#[trigger] self@.position.pieces[k] == Piece::Pawn
                        && self@.position.sides[k] == side),
            decreases start + 8 - i,
        {
            if self.position.pieces[i] == Piece::Pawn && self.position.sides[i] == side {
                assert(rank_of(i as int) == last_rank(side));
                return true;
            }
            i = i + 1;
        }
        assert forall|k: int|
            0 <= k < 64 && rank_of(k) == last_rank(side) implies !(
            #[trigger] self@.position.pieces[k] == Piece::Pawn && self@.position.sides[k] == side) by {
            assert(start <= k < start + 8);
        }
        false
    }

    /// The threat to the side to move's king: checked, checkmated, or none.
    fn get_king_threat_status(&self, has_move: bool) -> (r: BoardState)
        requires
            self.wf(),
            has_move == self@.position.has_legal_move(),
        ensures
            self@.position.attacked(self@.position.king_of(self@.position.turn)) ==> r == (
            if has_move {
                BoardState::Checked(self@.position.turn)
            } else {
                BoardState::CheckMated(self@.position.turn)
            }),
            !self@.position.attacked(self@.position.king_of(self@.position.turn)) ==> r
                == BoardState::Default,
    {
        let king_pos = self.get_curr_turn_king_pos();
        if self.position.is_checked(king_pos) {
            if has_move {
                BoardState::Checked(self.position.turn)
            } else {
                BoardState::CheckMated(self.position.turn)
            }
        } else {
            BoardState::Default
        }
    }

    /// How the position stands for the side to move: checkmate or check
    /// first, then a fifty-move draw, stalemate, a pawn awaiting promotion,
    /// and otherwise the default state.
    pub fn get_board_state(&self) -> (r: BoardState)
        requires
            self.wf(),
        ensures
            r == self@.position.classify(self@.fifty),
    {
        reveal(PositionModel::classify);
        let has_move = self.position.has_legal_move();
        let threat_status = self.get_king_threat_status(has_move);
        if threat_status != BoardState::Default {
            return threat_status;
        }
        if self.fifty_move_rule == 0 {
            return BoardState::DrawBy50Rule;
        }
        if !has_move {
            return BoardState::DrawByStaleMate;
        }
        let waiting = self.position.turn.opponent();
        if self.rank_contains_pawn(waiting) {
            if waiting == Side::White {
                return BoardState::WhitePromotion;
            } else {
                return BoardState::BlackPromotion;
            }
        }
        BoardState::Default
    }

    /// The legal targets of the piece on `position`: none unless it belongs
    /// to the side to move.
    pub fn get_position_possible_movements(&self, position: i8) -> (r: Result<
        Vec<i8>,
        ChessError,
    >)
        requires
            self.wf(),
        ensures
            !on_board(position as int) <==> r == Err::<Vec<i8>, ChessError>(
                ChessError::IndexOutOfRange,
            ),
            on_board(position as int) ==> r is Ok,
            r matches Ok(v) ==> v@.no_duplicates() && forall|t: int| #[trigger]
                lists(v@, t) == self@.position.legal_target(position as int, t),
    {
        if position < 0 || position > 63 {
            return Err(ChessError::IndexOutOfRange);
        }
        Ok(self.position.legal_moves(position))
    }

    /// Whether the move from `move_origin` to `move_target` captures or moves a pawn.
    fn should_reset_fifty_move_rule(&self, move_origin: i8, move_target: i8) -> (r: bool)
        requires
            self.wf(),
            on_board(move_origin as int),
            on_board(move_target as int),
        ensures
            r == self@.resets_fifty(move_origin as int, move_target as int),
    {
        self.position.pieces[move_target as usize] != Piece::Empty
            || self.position.pieces[move_origin as usize] == Piece::Pawn
    }

    fn update_pieces_has_moved_status(&mut self, origin: i8)
        ensures
            final(self).position.castle_info == rights_after(
                old(self).position.castle_info,
                origin as int,
            ),
            final(self).position.pieces == old(self).position.pieces,
            final(self).position.sides == old(self).position.sides,
            final(self).position.turn == old(self).position.turn,
            final(self).position.white_king_pos == old(self).position.white_king_pos,
            final(self).position.black_king_pos == old(self).position.black_king_pos,
            final(self).position.last_move_origin == old(self).position.last_move_origin,
            final(self).position.last_move_target == old(self).position.last_move_target,
            final(self).fifty_move_rule == old(self).fifty_move_rule,
            final(self).pawn_awaiting_promotion_pos == old(self).pawn_awaiting_promotion_pos,
            final(self).history_board_pieces == old(self).history_board_pieces,
            final(self).history_board_pieces_sides == old(self).history_board_pieces_sides,
    {
        match origin {
            0 => {
                self.position.castle_info.white_rook_one_moved = true;
            },
            7 => {
                self.position.castle_info.white_rook_two_moved = true;
            },
            56 => {
                self.position.castle_info.black_rook_one_moved = true;
            },
            63 => {
                self.position.castle_info.black_rook_two_moved = true;
            },
            4 => {
                self.position.castle_info.white_king_moved = true;
            },
            60 => {
                self.position.castle_info.black_king_moved = true;
            },
            _ => {},
        }
    }

    /// Plays the move from `origin` to `target` and reports how the game
    /// stands. A pawn reaching its last rank leaves a promotion pending, to
    /// be settled by `choose_promotion_piece` before any other move. Once
    /// the fifty-move counter is 0 the game is drawn and no move is taken;
    /// a move onto a king is refused too.
    #[verifier::rlimit(30)]
    pub fn do_move(&mut self, origin: i8, target: i8) -> (r: Result<BoardState, ChessError>)
        requires
            old(self).wf(),
        ensures
            final(self).wf(),
            !on_board(origin as int) || !on_board(target as int) ==> r == Err::<
                BoardState,
                ChessError,
            >(ChessError::IndexOutOfRange),
            on_board(origin as int) && on_board(target as int) && !old(self)@.accepts(
                origin as int,
                target as int,
            ) ==> r == Err::<BoardState, ChessError>(ChessError::IllegalMove),
            r is Err ==> *final(self) == *old(self),
            on_board(origin as int) && on_board(target as int) && old(self)@.accepts(
                origin as int,
                target as int,
            ) ==> {
                &&& r == Ok::<BoardState, ChessError>(
                    old(self)@.commit_result(origin as int, target as int),
                )
                &&& final(self)@ == old(self)@.commit(origin as int, target as int)
            },
    {
        if origin < 0 || origin > 63 || target < 0 || target > 63 {
            return Err(ChessError::IndexOutOfRange);
        }
        if self.fifty_move_rule == 0 || self.pawn_awaiting_promotion_pos != -1
            || self.position.pieces[target as usize] == Piece::King {
            return Err(ChessError::IllegalMove);
        }
        let legal = self.position.legal_moves(origin);
        if !contains(&legal, target) {
            return Err(ChessError::IllegalMove);
        }
        proof {
            self@.position.lemma_legal_target_shape(origin as int, target as int);
        }
        let ghost g0 = self@;
        let mover = self.position.turn;
        let reset = self.should_reset_fifty_move_rule(origin, target);
        let promotes = self.position.pieces[origin as usize] == Piece::Pawn && (if mover
            == Side::White {
            target / 8 == 7
        } else {
            target / 8 == 0
        });
        let sim = self.position.simulate_move(origin, target);
        self.position = sim;
        self.update_pieces_has_moved_status(origin);
        self.update_pieces_has_moved_status(target);
        self.position.last_move_origin = origin;
        self.position.last_move_target = target;
        self.position.turn = mover.opponent();
        if reset {
            self.fifty_move_rule = 50;
        } else {
            self.fifty_move_rule = self.fifty_move_rule - 1;
        }
        self.history_board_pieces.push(self.position.pieces);
        self.history_board_pieces_sides.push(self.position.sides);
        proof {
            assert(self@.history_pieces =~= g0.commit(origin as int, target as int).history_pieces);
            assert(self@.history_sides =~= g0.commit(origin as int, target as int).history_sides);
        }
        if promotes {
            self.pawn_awaiting_promotion_pos = target;
            assert(self@ == g0.commit(origin as int, target as int));
            if mover == Side::White {
                return Ok(BoardState::WhitePromotion);
            } else {
                return Ok(BoardState::BlackPromotion);
            }
        }
        assert(self@ == g0.commit(origin as int, target as int));
        Ok(self.get_board_state())
    }

    /// Turns the pawn awaiting promotion into `piece` and reports how the
    /// game stands. Refused when no promotion is pending or when `piece` is
    /// not a queen, rook, bishop or knight.
    pub fn choose_promotion_piece(&mut self, piece: Piece) -> (r: Result<BoardState, ChessError>)
        requires
            old(self).wf(),
        ensures
            final(self).wf(),
            old(self)@.promotion_refused(piece) <==> r == Err::<BoardState, ChessError>(
                ChessError::InvalidPromotion,
            ),
            r is Err ==> *final(self) == *old(self),
            !old(self)@.promotion_refused(piece) ==> {
                &&& final(self)@ == old(self)@.promote(piece)
                &&& r == Ok::<BoardState, ChessError>(final(self)@.position.classify(final(self)@.fifty))
            },
    {
        let pos = self.pawn_awaiting_promotion_pos;
        if pos == -1 {
            return Err(ChessError::InvalidPromotion);
        }
        match piece {
            Piece::Queen | Piece::Rook | Piece::Bishop | Piece::Knight => {},
            _ => {
                return Err(ChessError::InvalidPromotion);
            },
        }
        let ghost g0 = self@;
        self.position.pieces[pos as usize] = piece;
        self.position.sides[pos as usize] = self.position.turn.opponent();
        self.pawn_awaiting_promotion_pos = -1;
        proof {
            assert(self@.position.pieces =~= g0.promote(piece).position.pieces);
            assert(self@.position.sides =~= g0.promote(piece).position.sides);
            assert(self@ == g0.promote(piece));
        }
        Ok(self.get_board_state())
    }

    /// True once the history holds more than two pairs of equal boards.
    pub fn request_draw(&self) -> (r: bool)
        requires
            self.wf(),
        ensures
            r == (self@.repeated_pairs(self@.history_pieces.len() as int) > 2),
    {
        let ghost g = self@;
        let n = self.history_board_pieces.len();
        let mut count: u64 = 0;
        let mut i: usize = 0;
        while i < n
            invariant
                g == self@,
                self.wf(),
                n == self.history_board_pieces@.len(),
                i <= n,
                count == g.repeated_pairs(i as int),
                count <= 2,
            decreases n - i,
        {
            let mut j: usize = 0;
            while j < i
                invariant
                    g == self@,
                    self.wf(),
                    n == self.history_board_pieces@.len(),
                    j <= i < n,
                    count == g.repeated_pairs(i as int) + g.matches_before(i as int, j as int),
                    count <= 2,
                decreases i - j,
            {
                let same = boards_equal(&self.history_board_pieces[i], &self.history_board_pieces[j])
                    && sides_equal(
                    &self.history_board_pieces_sides[i],
                    &self.history_board_pieces_sides[j],
                );
                if same {
                    count = count + 1;
                    if count > 2 {
                        proof {
                            g.lemma_matches_before_grows(i as int, j as int + 1, i as int);
                            g.lemma_repeated_pairs_grows(i as int + 1, n as int);
                        }
                        return true;
                    }
                }
                j = j + 1;
            }
            i = i + 1;
        }
        false
    }

    /// What stands on each square.
    pub fn board_pieces(&self) -> (r: [Piece; 64])
        ensures
            r@ == self@.position.pieces,
    {
        self.position.pieces
    }

    /// Who owns each square.
    pub fn board_pieces_sides(&self) -> (r: [Side; 64])
        ensures
            r@ == self@.position.sides,
    {
        self.position.sides
    }

    /// The side to move.
    pub fn curr_turn(&self) -> (r: Side)
        ensures
            r == self@.position.turn,
    {
        self.position.turn
    }

    /// The origin of the last move made, or -1 before the first.
    pub fn last_move_origin(&self) -> (r: i8)
        ensures
            r as int == self@.position.last_origin,
    {
        self.position.last_move_origin
    }

    /// The target of the last move made, or -1 before the first.
    pub fn last_move_target(&self) -> (r: i8)
        ensures
            r as int == self@.position.last_target,
    {
        self.position.last_move_target
    }
}

fn boards_equal(a: &[Piece; 64], b: &[Piece; 64]) -> (r: bool)
    ensures
        r == (a@ == b@),
{
    let mut i: usize = 0;
    while i < 64
        invariant
            i <= 64,
            forall|k: int| 0 <= k < i ==> a@[k] == b@[k],
        decreases 64 - i,
    {
        if a[i] != b[i] {
            return false;
        }
        i = i + 1;
    }
    assert(a@ =~= b@);
    true
}

fn sides_equal(a: &[Side; 64], b: &[Side; 64]) -> (r: bool)
    ensures
        r == (a@ == b@),
{
    let mut i: usize = 0;
    while i < 64
        invariant
            i <= 64,
            forall|k: int| 0 <= k < i ==> a@[k] == b@[k],
        decreases 64 - i,
    {
        if a[i] != b[i] {
            return false;
        }
        i = i + 1;
    }
    assert(a@ =~= b@);
    true
}

} // verus!
