use caspervk_chess::{
    board_pos_to_index, bottom_left_callback, bottom_right_callback, down_callback,
    get_piece_visualisation_char, is_board_pos, is_pos_on_left_edge, is_pos_on_right_edge,
    is_pos_outside_of_board, left_callback, right_callback, top_left_callback, top_right_callback,
    up_callback, BoardState, CastleInfo, ChessError, Game, Piece, Position, Side,
};

fn sorted(mut v: Vec<i8>) -> Vec<i8> {
    v.sort();
    v
}

fn moves(game: &Game, square: i8) -> Vec<i8> {
    sorted(game.get_position_possible_movements(square).unwrap())
}

fn play(game: &mut Game, list: &[(i8, i8)]) -> BoardState {
    let mut last = BoardState::Default;
    for &(o, t) in list {
        last = game.do_move(o, t).unwrap();
    }
    last
}

fn no_rights() -> CastleInfo {
    CastleInfo {
        white_rook_one_moved: true,
        white_rook_two_moved: true,
        black_rook_one_moved: true,
        black_rook_two_moved: true,
        white_king_moved: true,
        black_king_moved: true,
    }
}

/// A game holding only the given pieces, kings included.
fn custom_game(pieces: &[(i8, Piece, Side)], turn: Side, fifty: i8) -> Game {
    let mut board = [Piece::Empty; 64];
    let mut sides = [Side::Neutral; 64];
    let mut white_king = 0;
    let mut black_king = 0;
    for &(sq, piece, side) in pieces {
        board[sq as usize] = piece;
        sides[sq as usize] = side;
        if piece == Piece::King {
            if side == Side::White {
                white_king = sq;
            } else {
                black_king = sq;
            }
        }
    }
    Game {
        position: Position {
            pieces: board,
            sides,
            turn,
            castle_info: no_rights(),
            white_king_pos: white_king,
            black_king_pos: black_king,
            last_move_origin: -1,
            last_move_target: -1,
        },
        fifty_move_rule: fifty,
        pawn_awaiting_promotion_pos: -1,
        history_board_pieces: Vec::new(),
        history_board_pieces_sides: Vec::new(),
    }
}

#[test]
fn starting_position() {
    let game = Game::new();
    let pieces = game.board_pieces();
    let sides = game.board_pieces_sides();
    assert_eq!(pieces[0], Piece::Rook);
    assert_eq!(pieces[3], Piece::Queen);
    assert_eq!(pieces[4], Piece::King);
    assert_eq!(pieces[60], Piece::King);
    assert_eq!(pieces[12], Piece::Pawn);
    assert_eq!(pieces[30], Piece::Empty);
    assert_eq!(sides[12], Side::White);
    assert_eq!(sides[52], Side::Black);
    assert_eq!(sides[30], Side::Neutral);
    assert_eq!(game.curr_turn(), Side::White);
    assert_eq!(game.last_move_origin(), -1);
    assert_eq!(game.last_move_target(), -1);
    assert_eq!(game.fifty_move_rule, 50);
    assert!(!game.request_draw());
}

#[test]
fn opening_moves() {
    let game = Game::new();
    assert_eq!(moves(&game, 1), vec![16, 18]);
    assert_eq!(moves(&game, 12), vec![20, 28]);
    assert_eq!(moves(&game, 0), Vec::<i8>::new());
    assert_eq!(moves(&game, 4), Vec::<i8>::new());
    assert_eq!(moves(&game, 30), Vec::<i8>::new());
    // Black's pieces do not move on White's turn.
    assert_eq!(moves(&game, 52), Vec::<i8>::new());
}

#[test]
fn square_out_of_range_is_refused() {
    let mut game = Game::new();
    assert_eq!(game.get_position_possible_movements(64).unwrap_err(), ChessError::IndexOutOfRange);
    assert_eq!(game.get_position_possible_movements(-1).unwrap_err(), ChessError::IndexOutOfRange);
    assert_eq!(game.do_move(-1, 5), Err(ChessError::IndexOutOfRange));
    assert_eq!(game.do_move(12, 70), Err(ChessError::IndexOutOfRange));
    assert_eq!(game.curr_turn(), Side::White);
}

#[test]
fn illegal_move_leaves_game_unchanged() {
    let mut game = Game::new();
    assert_eq!(game.do_move(12, 36), Err(ChessError::IllegalMove));
    assert_eq!(game.do_move(52, 44), Err(ChessError::IllegalMove));
    assert_eq!(game.do_move(30, 38), Err(ChessError::IllegalMove));
    assert_eq!(game.curr_turn(), Side::White);
    assert_eq!(game.board_pieces()[12], Piece::Pawn);
    assert_eq!(game.history_board_pieces.len(), 0);
    assert_eq!(game.fifty_move_rule, 50);
}

#[test]
fn move_updates_turn_history_and_last_move() {
    let mut game = Game::new();
    assert_eq!(game.do_move(12, 28), Ok(BoardState::Default));
    assert_eq!(game.curr_turn(), Side::Black);
    assert_eq!(game.last_move_origin(), 12);
    assert_eq!(game.last_move_target(), 28);
    assert_eq!(game.board_pieces()[28], Piece::Pawn);
    assert_eq!(game.board_pieces_sides()[28], Side::White);
    assert_eq!(game.board_pieces()[12], Piece::Empty);
    assert_eq!(game.board_pieces_sides()[12], Side::Neutral);
    assert_eq!(game.history_board_pieces.len(), 1);
    assert_eq!(game.history_board_pieces[0], game.board_pieces());
}

#[test]
fn fools_mate() {
    let mut game = Game::new();
    assert_eq!(game.do_move(13, 21), Ok(BoardState::Default));
    assert_eq!(game.do_move(52, 36), Ok(BoardState::Default));
    assert_eq!(game.do_move(14, 30), Ok(BoardState::Default));
    assert_eq!(game.do_move(59, 31), Ok(BoardState::CheckMated(Side::White)));
}

#[test]
fn check_is_reported() {
    let mut game = Game::new();
    // 1. e4 f5 2. Qh5+
    let state = play(&mut game, &[(12, 28), (53, 37), (3, 39)]);
    assert_eq!(state, BoardState::Checked(Side::Black));
    // Only g6 or capturing nothing: the g-pawn blocks.
    assert_eq!(moves(&game, 54), vec![46]);
    assert_eq!(moves(&game, 48), Vec::<i8>::new());
}

#[test]
fn stalemate_with_lone_king() {
    // Black king h8, White queen g5 and king a1; White plays Qg6.
    let mut game = custom_game(
        &[(63, Piece::King, Side::Black), (38, Piece::Queen, Side::White), (0, Piece::King, Side::White)],
        Side::White,
        50,
    );
    assert_eq!(game.do_move(38, 46), Ok(BoardState::DrawByStaleMate));
    assert_eq!(moves(&game, 63), Vec::<i8>::new());
}

#[test]
fn fifty_move_counter() {
    let mut game = Game::new();
    game.do_move(6, 21).unwrap();
    assert_eq!(game.fifty_move_rule, 49);
    game.do_move(62, 45).unwrap();
    assert_eq!(game.fifty_move_rule, 48);
    game.do_move(12, 28).unwrap();
    assert_eq!(game.fifty_move_rule, 50);
    game.do_move(45, 28).unwrap();
    assert_eq!(game.fifty_move_rule, 50);
}

#[test]
fn fifty_move_draw() {
    let mut game = custom_game(
        &[(60, Piece::King, Side::Black), (0, Piece::Rook, Side::White), (4, Piece::King, Side::White)],
        Side::White,
        1,
    );
    assert_eq!(game.do_move(0, 1), Ok(BoardState::DrawBy50Rule));
    assert_eq!(game.fifty_move_rule, 0);
}

#[test]
fn white_king_side_castling() {
    let mut game = Game::new();
    play(&mut game, &[(12, 28), (52, 36), (6, 21), (57, 42), (5, 26), (62, 45)]);
    assert_eq!(moves(&game, 4), vec![5, 6, 12]);
    assert_eq!(game.do_move(4, 6), Ok(BoardState::Default));
    assert_eq!(game.board_pieces()[6], Piece::King);
    assert_eq!(game.board_pieces()[5], Piece::Rook);
    assert_eq!(game.board_pieces_sides()[5], Side::White);
    assert_eq!(game.board_pieces()[7], Piece::Empty);
    assert_eq!(game.board_pieces()[4], Piece::Empty);
}

#[test]
fn castling_lost_after_king_moves() {
    let mut game = Game::new();
    play(&mut game, &[(12, 28), (52, 36), (6, 21), (57, 42), (5, 26), (62, 45)]);
    // Ke2, Nb8, Ke1, Nc6: the king is back but has moved.
    play(&mut game, &[(4, 12), (42, 57), (12, 4), (57, 42)]);
    assert_eq!(moves(&game, 4), vec![5, 12]);
    assert_eq!(game.do_move(4, 6), Err(ChessError::IllegalMove));
}

#[test]
fn castling_refused_through_attacked_square() {
    // The black rook on f8 attacks f1.
    let mut game = custom_game(
        &[(4, Piece::King, Side::White), (7, Piece::Rook, Side::White), (61, Piece::Rook, Side::Black), (56, Piece::King, Side::Black)],
        Side::White,
        50,
    );
    game.position.castle_info.white_king_moved = false;
    game.position.castle_info.white_rook_two_moved = false;
    assert!(!moves(&game, 4).contains(&6));
    // With the rook on a8 instead, castling is allowed.
    let mut open = custom_game(
        &[(4, Piece::King, Side::White), (7, Piece::Rook, Side::White), (57, Piece::Rook, Side::Black), (56, Piece::King, Side::Black)],
        Side::White,
        50,
    );
    open.position.castle_info.white_king_moved = false;
    open.position.castle_info.white_rook_two_moved = false;
    assert!(moves(&open, 4).contains(&6));
}

#[test]
fn queen_side_castling_moves_the_rook() {
    let mut game = custom_game(
        &[(4, Piece::King, Side::White), (0, Piece::Rook, Side::White), (63, Piece::King, Side::Black)],
        Side::White,
        50,
    );
    game.position.castle_info.white_king_moved = false;
    game.position.castle_info.white_rook_one_moved = false;
    assert!(moves(&game, 4).contains(&2));
    game.do_move(4, 2).unwrap();
    assert_eq!(game.board_pieces()[2], Piece::King);
    assert_eq!(game.board_pieces()[3], Piece::Rook);
    assert_eq!(game.board_pieces()[0], Piece::Empty);
}

#[test]
fn en_passant_capture() {
    let mut game = Game::new();
    play(&mut game, &[(12, 28), (48, 40), (28, 36), (51, 35)]);
    assert!(moves(&game, 36).contains(&43));
    game.do_move(36, 43).unwrap();
    assert_eq!(game.board_pieces()[43], Piece::Pawn);
    assert_eq!(game.board_pieces_sides()[43], Side::White);
    assert_eq!(game.board_pieces()[35], Piece::Empty);
    assert_eq!(game.board_pieces_sides()[35], Side::Neutral);
}

#[test]
fn en_passant_expires_after_one_ply() {
    let mut game = Game::new();
    play(&mut game, &[(12, 28), (48, 40), (28, 36), (51, 35), (8, 16), (55, 47)]);
    assert!(!moves(&game, 36).contains(&43));
    assert_eq!(game.do_move(36, 43), Err(ChessError::IllegalMove));
}

#[test]
fn promotion_round_trip() {
    let mut game = custom_game(
        &[(48, Piece::Pawn, Side::White), (4, Piece::King, Side::White), (47, Piece::King, Side::Black)],
        Side::White,
        50,
    );
    assert_eq!(game.do_move(48, 56), Ok(BoardState::WhitePromotion));
    assert_eq!(game.pawn_awaiting_promotion_pos, 56);
    assert_eq!(game.do_move(47, 39), Err(ChessError::IllegalMove));
    assert_eq!(game.choose_promotion_piece(Piece::King), Err(ChessError::InvalidPromotion));
    assert_eq!(game.choose_promotion_piece(Piece::Pawn), Err(ChessError::InvalidPromotion));
    assert_eq!(game.choose_promotion_piece(Piece::Queen), Ok(BoardState::Default));
    assert_eq!(game.board_pieces()[56], Piece::Queen);
    assert_eq!(game.board_pieces_sides()[56], Side::White);
    assert_eq!(game.pawn_awaiting_promotion_pos, -1);
    assert_eq!(game.choose_promotion_piece(Piece::Rook), Err(ChessError::InvalidPromotion));
    assert_eq!(game.board_pieces()[56], Piece::Queen);
}

#[test]
fn promotion_without_pending_pawn_is_refused() {
    let mut game = Game::new();
    assert_eq!(game.choose_promotion_piece(Piece::Queen), Err(ChessError::InvalidPromotion));
}

#[test]
fn repetition_counts_pairs_of_equal_boards() {
    let mut game = Game::new();
    let shuffle = [(6, 21), (62, 45), (21, 6), (45, 62)];
    play(&mut game, &shuffle);
    play(&mut game, &shuffle[0..2]);
    assert!(!game.request_draw());
    play(&mut game, &shuffle[2..3]);
    assert!(game.request_draw());
}

#[test]
fn replay_is_deterministic() {
    let line = [(13, 21), (52, 36), (14, 30), (59, 31)];
    let mut a = Game::new();
    let mut b = Game::new();
    let ra = play(&mut a, &line);
    let rb = play(&mut b, &line);
    assert_eq!(ra, rb);
    assert_eq!(a.board_pieces(), b.board_pieces());
    assert_eq!(a.board_pieces_sides(), b.board_pieces_sides());
    assert_eq!(a.history_board_pieces, b.history_board_pieces);
}

#[test]
fn knight_on_the_edge_does_not_wrap() {
    let game = custom_game(
        &[(15, Piece::Knight, Side::White), (4, Piece::King, Side::White), (60, Piece::King, Side::Black)],
        Side::White,
        50,
    );
    assert_eq!(moves(&game, 15), vec![5, 21, 30]);
}

#[test]
fn bishop_on_the_edge_keeps_both_diagonals() {
    let game = custom_game(
        &[(23, Piece::Bishop, Side::White), (0, Piece::King, Side::White), (56, Piece::King, Side::Black)],
        Side::White,
        50,
    );
    assert_eq!(moves(&game, 23), vec![5, 14, 30, 37, 44, 51, 58]);
}

#[test]
fn pinned_piece_cannot_leave_the_line() {
    // White rook on e2 pinned by the black rook on e8.
    let game = custom_game(
        &[(4, Piece::King, Side::White), (12, Piece::Rook, Side::White), (60, Piece::Rook, Side::Black), (63, Piece::King, Side::Black)],
        Side::White,
        50,
    );
    assert_eq!(moves(&game, 12), vec![20, 28, 36, 44, 52, 60]);
}

#[test]
fn board_edges() {
    assert!(is_pos_outside_of_board(64));
    assert!(is_pos_outside_of_board(-1));
    assert!(!is_pos_outside_of_board(0));
    assert!(!is_pos_outside_of_board(63));
    assert!(is_pos_on_right_edge(7));
    assert!(is_pos_on_right_edge(63));
    assert!(!is_pos_on_right_edge(8));
    assert!(is_pos_on_left_edge(8));
    assert!(!is_pos_on_left_edge(7));
}

#[test]
fn direction_steps() {
    assert_eq!(right_callback(6, 1), (7, false));
    assert_eq!(right_callback(7, 1), (8, true));
    assert_eq!(left_callback(8, 1), (7, true));
    assert_eq!(left_callback(9, 1), (8, false));
    assert_eq!(up_callback(3, 1), (-5, true));
    assert_eq!(up_callback(11, 1), (3, false));
    assert_eq!(down_callback(59, 1), (67, true));
    assert_eq!(down_callback(3, 7), (59, false));
    assert_eq!(top_right_callback(8, 1), (-1, true));
    assert_eq!(top_right_callback(18, 2), (0, false));
    assert_eq!(top_left_callback(15, 1), (8, true));
    assert_eq!(top_left_callback(14, 1), (7, false));
    assert_eq!(bottom_right_callback(8, 1), (15, true));
    assert_eq!(bottom_right_callback(9, 1), (16, false));
    assert_eq!(bottom_left_callback(7, 1), (16, true));
    assert_eq!(bottom_left_callback(0, 7), (63, false));
    assert_eq!(right_callback(20, 0), (20, false));
}

#[test]
fn square_names() {
    assert_eq!(board_pos_to_index(String::from("a1")), 0);
    assert_eq!(board_pos_to_index(String::from("e2")), 12);
    assert_eq!(board_pos_to_index(String::from("H8")), 63);
    assert_eq!(board_pos_to_index(String::from("d8")), 59);
    assert!(is_board_pos(&String::from("e4")));
    assert!(is_board_pos(&String::from("C7")));
    assert!(!is_board_pos(&String::from("z9")));
    assert!(!is_board_pos(&String::from("e9")));
    assert!(!is_board_pos(&String::from("e")));
}

#[test]
fn piece_glyphs() {
    assert_eq!(get_piece_visualisation_char(Piece::Pawn, Side::Black), '\u{2659}');
    assert_eq!(get_piece_visualisation_char(Piece::Pawn, Side::White), '\u{265F}');
    assert_eq!(get_piece_visualisation_char(Piece::King, Side::White), '\u{265A}');
    assert_eq!(get_piece_visualisation_char(Piece::Queen, Side::Black), '\u{2655}');
    assert_eq!(get_piece_visualisation_char(Piece::Empty, Side::Neutral), '0');
}

#[test]
fn opponent_side() {
    assert_eq!(Side::White.opponent(), Side::Black);
    assert_eq!(Side::Black.opponent(), Side::White);
    assert_eq!(Side::Neutral.opponent(), Side::Neutral);
}

#[test]
fn black_en_passant_capture() {
    let mut game = Game::new();
    play(&mut game, &[(8, 16), (52, 36), (16, 24), (36, 28), (11, 27)]);
    assert_eq!(moves(&game, 28), vec![19, 20]);
    game.do_move(28, 19).unwrap();
    assert_eq!(game.board_pieces()[19], Piece::Pawn);
    assert_eq!(game.board_pieces_sides()[19], Side::Black);
    assert_eq!(game.board_pieces()[27], Piece::Empty);
}

#[test]
fn black_promotion_to_knight() {
    let mut game = custom_game(
        &[(8, Piece::Pawn, Side::Black), (31, Piece::King, Side::White), (63, Piece::King, Side::Black)],
        Side::Black,
        50,
    );
    assert_eq!(game.do_move(8, 0), Ok(BoardState::BlackPromotion));
    assert_eq!(game.curr_turn(), Side::White);
    assert_eq!(game.choose_promotion_piece(Piece::Knight), Ok(BoardState::Default));
    assert_eq!(game.board_pieces()[0], Piece::Knight);
    assert_eq!(game.board_pieces_sides()[0], Side::Black);
}

#[test]
fn black_king_side_castling() {
    let mut game = Game::new();
    play(&mut game, &[(12, 28), (52, 36), (6, 21), (62, 45), (5, 26), (61, 34), (8, 16)]);
    assert!(moves(&game, 60).contains(&62));
    game.do_move(60, 62).unwrap();
    assert_eq!(game.board_pieces()[62], Piece::King);
    assert_eq!(game.board_pieces()[61], Piece::Rook);
    assert_eq!(game.board_pieces_sides()[61], Side::Black);
    assert_eq!(game.board_pieces()[63], Piece::Empty);
}

#[test]
fn castling_lost_when_rook_captured_on_its_square() {
    let mut game = custom_game(
        &[(4, Piece::King, Side::White), (7, Piece::Rook, Side::White), (8, Piece::Pawn, Side::White), (13, Piece::Knight, Side::Black), (60, Piece::King, Side::Black)],
        Side::White,
        50,
    );
    game.position.castle_info.white_king_moved = false;
    game.position.castle_info.white_rook_two_moved = false;
    assert!(moves(&game, 4).contains(&6));
    game.do_move(8, 16).unwrap();
    game.do_move(13, 7).unwrap();
    assert!(game.position.castle_info.white_rook_two_moved);
    assert!(!moves(&game, 4).contains(&6));
    assert_eq!(game.do_move(4, 6), Err(ChessError::IllegalMove));
}

#[test]
fn castling_needs_the_rook_on_its_square() {
    let mut game = custom_game(
        &[(4, Piece::King, Side::White), (60, Piece::King, Side::Black)],
        Side::White,
        50,
    );
    game.position.castle_info.white_king_moved = false;
    game.position.castle_info.white_rook_two_moved = false;
    game.position.castle_info.white_rook_one_moved = false;
    assert_eq!(moves(&game, 4), vec![3, 5, 11, 12, 13]);
}

#[test]
fn no_move_after_fifty_move_draw() {
    let mut game = custom_game(
        &[(60, Piece::King, Side::Black), (0, Piece::Rook, Side::White), (4, Piece::King, Side::White)],
        Side::White,
        1,
    );
    assert_eq!(game.do_move(0, 1), Ok(BoardState::DrawBy50Rule));
    assert_eq!(game.do_move(60, 61), Err(ChessError::IllegalMove));
    assert_eq!(game.board_pieces()[60], Piece::King);
}

#[test]
fn moving_onto_a_king_is_refused() {
    // Black's king stands attacked by the rook with White to move.
    let mut game = custom_game(
        &[(4, Piece::King, Side::White), (0, Piece::Rook, Side::White), (56, Piece::King, Side::Black)],
        Side::White,
        50,
    );
    assert!(moves(&game, 0).contains(&56));
    assert_eq!(game.do_move(0, 56), Err(ChessError::IllegalMove));
    assert_eq!(game.board_pieces()[56], Piece::King);
}

#[test]
fn move_lists_hold_no_duplicates() {
    let mut game = Game::new();
    play(&mut game, &[(12, 28), (51, 35)]);
    for square in 0..64 {
        let list = game.get_position_possible_movements(square).unwrap();
        let mut unique = list.clone();
        unique.sort();
        unique.dedup();
        assert_eq!(unique.len(), list.len());
    }
    assert_eq!(moves(&game, 3), vec![12, 21, 30, 39]);
    assert_eq!(moves(&game, 28), vec![35, 36]);
}

#[test]
fn edges_of_negative_and_full_steps() {
    assert!(is_pos_on_left_edge(-8));
    assert!(!is_pos_on_left_edge(-3));
    assert!(is_pos_on_right_edge(-1));
    assert!(!is_pos_on_right_edge(-2));
    assert_eq!(right_callback(0, 8), (8, true));
    assert_eq!(down_callback(3, 8), (67, true));
    assert_eq!(up_callback(60, 8), (-4, true));
    assert_eq!(bottom_left_callback(0, 8), (72, true));
    assert_eq!(top_right_callback(63, 7), (0, false));
    assert_eq!(top_right_callback(63, 8), (-9, true));
}

#[test]
fn board_state_of_a_given_position() {
    let stalemate = custom_game(
        &[(63, Piece::King, Side::Black), (46, Piece::Queen, Side::White), (0, Piece::King, Side::White)],
        Side::Black,
        50,
    );
    assert_eq!(stalemate.get_board_state(), BoardState::DrawByStaleMate);
    let drawn = custom_game(
        &[(60, Piece::King, Side::Black), (1, Piece::Rook, Side::White), (4, Piece::King, Side::White)],
        Side::Black,
        0,
    );
    assert_eq!(drawn.get_board_state(), BoardState::DrawBy50Rule);
    assert_eq!(Game::new().get_board_state(), BoardState::Default);
}

#[test]
fn castling_offered_on_both_wings() {
    let mut game = custom_game(
        &[(4, Piece::King, Side::White), (0, Piece::Rook, Side::White), (7, Piece::Rook, Side::White), (60, Piece::King, Side::Black)],
        Side::White,
        50,
    );
    game.position.castle_info.white_king_moved = false;
    game.position.castle_info.white_rook_one_moved = false;
    game.position.castle_info.white_rook_two_moved = false;
    let list = moves(&game, 4);
    assert!(list.contains(&2));
    assert!(list.contains(&6));
}

