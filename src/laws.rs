//! Properties that hold across positions and across calls, proved from the
//! models that the functions' contracts are stated over.

use vstd::prelude::*;
use crate::board::{offset_ok, offset_square, on_board, ray_ok, ray_square, Direction};
use crate::game::GameModel;
use crate::movegen::PositionModel;
use crate::types::{opponent_of, BoardState, Piece, Side};

verus! {

/// Every legal move, played out, leaves the mover's own king unattacked.
pub proof fn lemma_legal_move_keeps_king_safe(pos: PositionModel, p: int, t: int)
    requires
        pos.wf(),
        pos.legal_target(p, t),
    ensures
        !pos.simulate(p, t).attacked(pos.simulate(p, t).king_of(pos.turn)),
        on_board(t),
{
    pos.lemma_legal_target_shape(p, t);
}

/// Committing a move depends on the game and the move alone: equal games
/// replaying the same moves end equal.
pub proof fn lemma_replay_deterministic(g1: GameModel, g2: GameModel, moves: Seq<(int, int)>)
    requires
        g1 == g2,
    ensures
        g1.replay(moves) == g2.replay(moves),
{
}

/// The fifty-move counter goes back to 50 on a capture or a pawn move and
/// otherwise drops by one.
pub proof fn lemma_fifty_move_counter(g: GameModel, o: int, t: int)
    requires
        g.wf(),
        g.accepts(o, t),
    ensures
        g.commit(o, t).fifty == if g.position.pieces[t] != Piece::Empty
            || g.position.pieces[o] == Piece::Pawn {
            50
        } else {
            g.fifty - 1
        },
{
}

/// A move that brings the counter to 0 is reported as a draw, unless it
/// gives check or leaves a promotion pending.
pub proof fn lemma_fifty_move_draw(g: GameModel, o: int, t: int)
    requires
        g.wf(),
        g.accepts(o, t),
        g.commit(o, t).fifty == 0,
        !g.promotes(o, t),
        !g.commit(o, t).position.attacked(
            g.commit(o, t).position.king_of(g.commit(o, t).position.turn),
        ),
    ensures
        g.commit_result(o, t) == BoardState::DrawBy50Rule,
{
    reveal(PositionModel::classify);
}

/// White's king on e1 may castle king-side to g1 exactly when king and h1
/// rook keep their rights, the rook stands on h1, f1 and g1 are empty, and
/// e1, f1 and g1 are unattacked; so a legal castling move meets all of these.
pub proof fn lemma_white_king_side_castling(pos: PositionModel)
    requires
        pos.wf(),
        pos.turn == Side::White,
        pos.pieces[4] == Piece::King,
        pos.sides[4] == Side::White,
    ensures
        pos.pseudo_target(4, 6) <==> {
            &&& !pos.castle.white_king_moved
            &&& !pos.castle.white_rook_two_moved
            &&& pos.pieces[7] == Piece::Rook
            &&& pos.sides[7] == Side::White
            &&& pos.is_empty(5)
            &&& pos.is_empty(6)
            &&& !pos.attacked(4)
            &&& !pos.attacked(5)
            &&& !pos.attacked(6)
        },
        pos.legal_target(4, 6) ==> pos.pseudo_target(4, 6),
{
}

/// Sliding onto g1 after White castles king-side: a black piece whose ray
/// reaches g1 on the new board reached it on the old one, because the only
/// squares vacated (e1, h1) cannot lie before g1 on such a ray without f1,
/// now holding the rook, lying there too.
proof fn lemma_castle_ray_frame(pos: PositionModel, q: int, d: Direction)
    requires
        pos.wf(),
        on_board(q),
        q != 4 && q != 5 && q != 6 && q != 7,
        pos.castle_rook(4, 6) == Some((7int, 5int)),
        pos.en_passant_capture(4, 6) is None,
        pos.is_empty(5),
        pos.is_empty(6),
        pos.sides[4] == Side::White,
        pos.sides[7] == Side::White,
    ensures
        pos.simulate(4, 6).ray_target(q, Side::Black, d, 6) ==> pos.ray_target(q, Side::Black, d, 6),
{
    let sim = pos.simulate(4, 6);
    if sim.ray_target(q, Side::Black, d, 6) {
        let n = choose|n: int| #[trigger] sim.ray_hit(q, Side::Black, d, n, 6);
        assert forall|j: int| 1 <= j < n implies pos.sides[#[trigger] ray_square(q, d, j)]
            == Side::Neutral by {
            assert(ray_ok(q, d, j));
            if ray_square(q, d, j) == 4 {
                assert(ray_square(q, d, j + 1) == 5);
                assert(sim.sides[ray_square(q, d, j + 1)] == Side::Neutral);
            }
            assert(ray_square(q, d, j) != 7);
        }
        assert(pos.ray_hit(q, Side::Black, d, n, 6));
    }
}

/// When White's h1 rook stands on its square and no black pawn stands on
/// f2 or h2, the king-side castling conditions make e1 to g1 a legal move.
pub proof fn lemma_white_king_side_castling_legal(pos: PositionModel)
    requires
        pos.wf(),
        pos.turn == Side::White,
        pos.pieces[4] == Piece::King,
        pos.sides[4] == Side::White,
        pos.pieces[7] == Piece::Rook,
        pos.sides[7] == Side::White,
        !(pos.pieces[13] == Piece::Pawn && pos.sides[13] == Side::Black),
        !(pos.pieces[15] == Piece::Pawn && pos.sides[15] == Side::Black),
        !pos.castle.white_king_moved,
        !pos.castle.white_rook_two_moved,
        pos.is_empty(5),
        pos.is_empty(6),
        !pos.attacked(4),
        !pos.attacked(5),
        !pos.attacked(6),
    ensures
        pos.legal_target(4, 6),
{
    let sim = pos.simulate(4, 6);
    assert(pos.castle_target(4, 6));
    assert(pos.castle_rook(4, 6) == Some((7int, 5int)));
    assert(pos.en_passant_capture(4, 6) is None);
    assert(sim.king_of(Side::White) == 6);
    assert forall|q: int| on_board(q) && sim.sides[q] != sim.turn implies !#[trigger] sim.reach_target(
        q,
        6,
    ) by {
        if q != 4 && q != 5 && q != 6 && q != 7 {
            assert(sim.pieces[q] == pos.pieces[q]);
            assert(sim.sides[q] == pos.sides[q]);
            if sim.pieces[q] != Piece::Empty {
                assert(pos.sides[q] == Side::Black);
                lemma_castle_ray_frame(pos, q, Direction::Right);
                lemma_castle_ray_frame(pos, q, Direction::Left);
                lemma_castle_ray_frame(pos, q, Direction::Up);
                lemma_castle_ray_frame(pos, q, Direction::Down);
                lemma_castle_ray_frame(pos, q, Direction::TopRight);
                lemma_castle_ray_frame(pos, q, Direction::TopLeft);
                lemma_castle_ray_frame(pos, q, Direction::BottomRight);
                lemma_castle_ray_frame(pos, q, Direction::BottomLeft);
                assert(!pos.reach_target(q, 6));
            }
        }
    }
    assert(!pos.exposes_king(4, 6));
}

/// A side to move that is not in check and has no legal move is
/// stalemated, unless the fifty-move counter has already run out; in check
/// with no legal move, it is checkmated.
pub proof fn lemma_no_legal_move_classified(pos: PositionModel, fifty: int)
    requires
        pos.wf(),
        !pos.has_legal_move(),
    ensures
        !pos.attacked(pos.king_of(pos.turn)) && fifty != 0 ==> pos.classify(fifty)
            == BoardState::DrawByStaleMate,
        pos.attacked(pos.king_of(pos.turn)) ==> pos.classify(fifty) == BoardState::CheckMated(
            pos.turn,
        ),
{
    reveal(PositionModel::classify);
}

/// With both rooks and the king on their squares and keeping their rights,
/// the squares between them empty and the king's path on either wing
/// unattacked, White may castle on both wings: one does not shut out the other.
pub proof fn lemma_white_castling_both_wings(pos: PositionModel)
    requires
        pos.wf(),
        pos.turn == Side::White,
        pos.pieces[4] == Piece::King,
        pos.sides[4] == Side::White,
        pos.pieces[0] == Piece::Rook,
        pos.sides[0] == Side::White,
        pos.pieces[7] == Piece::Rook,
        pos.sides[7] == Side::White,
        !pos.castle.white_king_moved,
        !pos.castle.white_rook_one_moved,
        !pos.castle.white_rook_two_moved,
        pos.is_empty(1),
        pos.is_empty(2),
        pos.is_empty(3),
        pos.is_empty(5),
        pos.is_empty(6),
        !pos.attacked(2),
        !pos.attacked(3),
        !pos.attacked(4),
        !pos.attacked(5),
        !pos.attacked(6),
    ensures
        pos.pseudo_target(4, 2),
        pos.pseudo_target(4, 6),
{
}

/// Castling rights are never regained, and a move from or onto a king's or
/// rook's starting square gives up the rights that piece carries.
pub proof fn lemma_castling_rights_only_lost(g: GameModel, o: int, t: int)
    requires
        g.wf(),
        g.accepts(o, t),
    ensures
        ({
            let c = g.position.castle;
            let d = g.commit(o, t).position.castle;
            &&& c.white_king_moved ==> d.white_king_moved
            &&& c.black_king_moved ==> d.black_king_moved
            &&& c.white_rook_one_moved ==> d.white_rook_one_moved
            &&& c.white_rook_two_moved ==> d.white_rook_two_moved
            &&& c.black_rook_one_moved ==> d.black_rook_one_moved
            &&& c.black_rook_two_moved ==> d.black_rook_two_moved
            &&& o == 4 ==> d.white_king_moved
            &&& o == 7 ==> d.white_rook_two_moved
            &&& o == 0 ==> d.white_rook_one_moved
            &&& o == 60 ==> d.black_king_moved
            &&& o == 63 ==> d.black_rook_two_moved
            &&& o == 56 ==> d.black_rook_one_moved
            &&& t == 4 ==> d.white_king_moved
            &&& t == 7 ==> d.white_rook_two_moved
            &&& t == 0 ==> d.white_rook_one_moved
            &&& t == 60 ==> d.black_king_moved
            &&& t == 63 ==> d.black_rook_two_moved
            &&& t == 56 ==> d.black_rook_one_moved
        }),
{
}

/// Right after a black pawn's two-square advance to the square beside a
/// white pawn, the white pawn may capture onto the square behind it, and
/// does so legally unless that exposes the white king.
pub proof fn lemma_en_passant_available(pos: PositionModel, p: int, df: int)
    requires
        pos.wf(),
        on_board(p),
        df == 1 || df == -1,
        offset_ok(p, 0, df),
        pos.turn == Side::White,
        pos.pieces[p] == Piece::Pawn,
        pos.sides[p] == Side::White,
        pos.pieces[offset_square(p, 0, df)] == Piece::Pawn,
        pos.sides[offset_square(p, 0, df)] == Side::Black,
        pos.last_origin == offset_square(p, 0, df) + 16,
        pos.last_target == offset_square(p, 0, df),
    ensures
        pos.pseudo_target(p, offset_square(p, 0, df) + 8),
        pos.legal_target(p, offset_square(p, 0, df) + 8) <==> !pos.exposes_king(
            p,
            offset_square(p, 0, df) + 8,
        ),
{
    assert(pos.en_passant_target(p, Side::White, df, offset_square(p, 0, df) + 8));
}

/// Once the last move is no longer that advance, the white pawn cannot move
/// onto the empty square behind the black pawn.
pub proof fn lemma_en_passant_expires(pos: PositionModel, p: int, df: int)
    requires
        pos.wf(),
        on_board(p),
        df == 1 || df == -1,
        offset_ok(p, 0, df),
        pos.pieces[p] == Piece::Pawn,
        pos.sides[p] == Side::White,
        on_board(offset_square(p, 0, df) + 8),
        pos.is_empty(offset_square(p, 0, df) + 8),
        !(pos.last_origin == offset_square(p, 0, df) + 16 && pos.last_target == offset_square(
            p,
            0,
            df,
        )),
    ensures
        !pos.pseudo_target(p, offset_square(p, 0, df) + 8),
        !pos.legal_target(p, offset_square(p, 0, df) + 8),
{
}

/// Choosing a promotion piece changes exactly the pending square, gives it
/// to the side that promoted, and clears the pending promotion, so that a
/// second choice is refused.
pub proof fn lemma_promotion_round_trip(g: GameModel, piece: Piece, again: Piece)
    requires
        g.wf(),
        !g.promotion_refused(piece),
    ensures
        g.promote(piece).wf(),
        g.promote(piece).position.pieces[g.pending] == piece,
        g.promote(piece).position.sides[g.pending] == opponent_of(g.position.turn),
        g.position.sides[g.pending] == opponent_of(g.position.turn),
        forall|i: int|
            0 <= i < 64 && i != g.pending ==> g.promote(piece).position.pieces[i]
                == g.position.pieces[i] && g.promote(piece).position.sides[i]
                == g.position.sides[i],
        g.promote(piece).promotion_refused(again),
{
}

} // verus!
