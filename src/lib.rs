//! A chess rules engine: legal move generation, move application and
//! classification of the resulting position, with every rule stated as a
//! contract over a mathematical model of the board.

pub mod board;
pub mod game;
pub mod laws;
pub mod movegen;
pub mod notation;
pub mod rules;
pub mod types;

pub use board::{
    bottom_left_callback, bottom_right_callback, down_callback, is_pos_on_left_edge,
    is_pos_on_right_edge, is_pos_outside_of_board, left_callback, right_callback,
    top_left_callback, top_right_callback, up_callback, Direction,
};
pub use types::{BoardState, CastleInfo, ChessError, Piece, Side};
pub use game::Game;
pub use movegen::Position;
pub use notation::{board_pos_to_index, get_piece_visualisation_char, is_board_pos};
