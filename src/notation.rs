//! Square names such as "e2", and the glyph each piece is drawn with.

use vstd::prelude::*;
use vstd::string::StrSliceExecFns;
use crate::types::{Piece, Side};

verus! {

/// The file a letter names, a or A being 0; -1 for any other character.
pub open spec fn file_letter_index(c: char) -> int {
    if 'a' <= c <= 'h' {
        c as int - 'a' as int
    } else if 'A' <= c <= 'H' {
        c as int - 'A' as int
    } else {
        -1
    }
}

/// `s` starts with a file letter and a rank digit from 1 to 8.
pub open spec fn valid_board_pos(s: Seq<char>) -> bool {
    &&& s.len() >= 2
    &&& file_letter_index(s[0]) >= 0
    &&& '1' <= s[1] <= '8'
}

/// The square a valid name stands for.
pub open spec fn board_pos_index(s: Seq<char>) -> int {
    8 * (s[1] as int - '1' as int) + file_letter_index(s[0])
}

/// Whether `board_pos` names a square.
pub fn is_board_pos(board_pos: &String) -> (r: bool)
    ensures
        r == valid_board_pos(board_pos@),
{
    let s = board_pos.as_str();
    if s.unicode_len() < 2 {
        return false;
    }
    let file = s.get_char(0);
    let rank = s.get_char(1);
    (('a' <= file && file <= 'h') || ('A' <= file && file <= 'H')) && '1' <= rank && rank <= '8'
}

/// The index of the square a name such as "e2" stands for; the file
/// letter may be upper or lower case.
pub fn board_pos_to_index(board_pos: String) -> (r: i8)
    requires
        valid_board_pos(board_pos@),
    ensures
        r as int == board_pos_index(board_pos@),
        0 <= r < 64,
{
    let s = board_pos.as_str();
    let rank = s.get_char(1);
    let file = s.get_char(0);
    let rank_index = (rank as u32 - '1' as u32) as i8;
    let file_index = if 'a' <= file && file <= 'h' {
        (file as u32 - 'a' as u32) as i8
    } else {
        (file as u32 - 'A' as u32) as i8
    };
    rank_index * 8 + file_index
}

/// The glyph a piece is drawn with; `'0'` for an empty square.
pub open spec fn piece_glyph(piece: Piece, side: Side) -> char {
    let black = side == Side::Black;
    match piece {
        Piece::Pawn => if black { '\u{2659}' } else { '\u{265F}' },
        Piece::Rook => if black { '\u{2656}' } else { '\u{265C}' },
        Piece::Knight => if black { '\u{2658}' } else { '\u{265E}' },
        Piece::Queen => if black { '\u{2655}' } else { '\u{265B}' },
        Piece::King => if black { '\u{2654}' } else { '\u{265A}' },
        Piece::Bishop => if black { '\u{2657}' } else { '\u{265D}' },
        Piece::Empty => '0',
    }
}

pub fn get_piece_visualisation_char(piece: Piece, side: Side) -> (r: char)
    ensures
        r == piece_glyph(piece, side),
{
    let black = side == Side::Black;
    match piece {
        Piece::Pawn => if black { '\u{2659}' } else { '\u{265F}' },
        Piece::Rook => if black { '\u{2656}' } else { '\u{265C}' },
        Piece::Knight => if black { '\u{2658}' } else { '\u{265E}' },
        Piece::Queen => if black { '\u{2655}' } else { '\u{265B}' },
        Piece::King => if black { '\u{2654}' } else { '\u{265A}' },
        Piece::Bishop => if black { '\u{2657}' } else { '\u{265D}' },
        Piece::Empty => '0',
    }
}

} // verus!
