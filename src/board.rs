//! Square arithmetic. Squares are numbered rank by rank: a1 is 0, h1 is 7,
//! a2 is 8, h8 is 63. A square's file is its index modulo 8, its rank the
//! index divided by 8.

use vstd::prelude::*;

verus! {

pub open spec fn on_board(p: int) -> bool {
    0 <= p < 64
}

pub open spec fn file_of(p: int) -> int {
    p % 8
}

pub open spec fn rank_of(p: int) -> int {
    p / 8
}

/// The square on rank `r` and file `f`.
pub open spec fn square_at(r: int, f: int) -> int {
    8 * r + f
}

/// The eight directions a piece can move in. `Up` lowers the rank, `Down`
/// raises it; `Right` raises the file, `Left` lowers it.
#[derive(Clone, Copy, Debug, PartialEq, Eq, Structural)]
pub enum Direction {
    Right,
    Left,
    Up,
    Down,
    TopRight,
    TopLeft,
    BottomRight,
    BottomLeft,
}

/// Rank reached after `n` steps from `p` along `d`.
pub open spec fn ray_rank(p: int, d: Direction, n: int) -> int {
    match d {
        Direction::Up | Direction::TopRight | Direction::TopLeft => rank_of(p) - n,
        Direction::Down | Direction::BottomRight | Direction::BottomLeft => rank_of(p) + n,
        _ => rank_of(p),
    }
}

/// File reached after `n` steps from `p` along `d`.
pub open spec fn ray_file(p: int, d: Direction, n: int) -> int {
    match d {
        Direction::Right | Direction::TopLeft | Direction::BottomLeft => file_of(p) + n,
        Direction::Left | Direction::TopRight | Direction::BottomRight => file_of(p) - n,
        _ => file_of(p),
    }
}

/// `n` steps from `p` along `d` stay on the board, without wrapping round an edge.
pub open spec fn ray_ok(p: int, d: Direction, n: int) -> bool {
    0 <= ray_rank(p, d, n) < 8 && 0 <= ray_file(p, d, n) < 8
}

/// The square `n` steps from `p` along `d`.
pub open spec fn ray_square(p: int, d: Direction, n: int) -> int {
    square_at(ray_rank(p, d, n), ray_file(p, d, n))
}

/// Moving `dr` ranks and `df` files from `p` stays on the board.
pub open spec fn offset_ok(p: int, dr: int, df: int) -> bool {
    0 <= rank_of(p) + dr < 8 && 0 <= file_of(p) + df < 8
}

/// The square `dr` ranks and `df` files away from `p`.
pub open spec fn offset_square(p: int, dr: int, df: int) -> int {
    square_at(rank_of(p) + dr, file_of(p) + df)
}

pub fn is_pos_outside_of_board(position: i8) -> (r: bool)
    ensures
        r == !on_board(position as int),
{
    position > 63 || position < 0
}

/// Whether `position + 1` is a multiple of 8: on the board, whether the
/// square is on the h-file.
pub fn is_pos_on_right_edge(position: i8) -> (r: bool)
    requires
        position < 127,
    ensures
        r == ((position as int + 1) % 8 == 0),
        on_board(position as int) ==> (r == (file_of(position as int) == 7)),
{
    (position + 1) % 8 == 0
}

/// Whether `position` is a multiple of 8: on the board, whether the square
/// is on the a-file.
pub fn is_pos_on_left_edge(position: i8) -> (r: bool)
    ensures
        r == (position as int % 8 == 0),
        on_board(position as int) ==> (r == (file_of(position as int) == 0)),
{
    position % 8 == 0
}

/// `n` steps to the right of `from`, and whether that leaves the board.
pub fn right_callback(from: i8, n: i8) -> (r: (i8, bool))
    requires
        on_board(from as int),
        0 <= n <= 8,
    ensures
        r.0 == ray_square(from as int, Direction::Right, n as int),
        r.1 == !ray_ok(from as int, Direction::Right, n as int),
{
    let target = from + n;
    (target, from % 8 + n > 7)
}

/// `n` steps to the left of `from`, and whether that leaves the board.
pub fn left_callback(from: i8, n: i8) -> (r: (i8, bool))
    requires
        on_board(from as int),
        0 <= n <= 8,
    ensures
        r.0 == ray_square(from as int, Direction::Left, n as int),
        r.1 == !ray_ok(from as int, Direction::Left, n as int),
{
    let target = from - n;
    (target, from % 8 < n)
}

/// `n` ranks below `from`, and whether that leaves the board.
pub fn up_callback(from: i8, n: i8) -> (r: (i8, bool))
    requires
        on_board(from as int),
        0 <= n <= 8,
    ensures
        r.0 == ray_square(from as int, Direction::Up, n as int),
        r.1 == !ray_ok(from as int, Direction::Up, n as int),
{
    let target = from - n * 8;
    (target, is_pos_outside_of_board(target))
}

/// `n` ranks above `from`, and whether that leaves the board.
pub fn down_callback(from: i8, n: i8) -> (r: (i8, bool))
    requires
        on_board(from as int),
        0 <= n <= 8,
    ensures
        r.0 == ray_square(from as int, Direction::Down, n as int),
        r.1 == !ray_ok(from as int, Direction::Down, n as int),
{
    let target = from + n * 8;
    (target, is_pos_outside_of_board(target))
}

/// `n` steps diagonally to a lower rank and a lower file.
pub fn top_right_callback(from: i8, n: i8) -> (r: (i8, bool))
    requires
        on_board(from as int),
        0 <= n <= 8,
    ensures
        r.0 == ray_square(from as int, Direction::TopRight, n as int),
        r.1 == !ray_ok(from as int, Direction::TopRight, n as int),
{
    let target = from - n * 9;
    (target, from % 8 < n || from < n * 8)
}

/// `n` steps diagonally to a lower rank and a higher file.
pub fn top_left_callback(from: i8, n: i8) -> (r: (i8, bool))
    requires
        on_board(from as int),
        0 <= n <= 8,
    ensures
        r.0 == ray_square(from as int, Direction::TopLeft, n as int),
        r.1 == !ray_ok(from as int, Direction::TopLeft, n as int),
{
    let target = from - n * 7;
    (target, from % 8 + n > 7 || from < n * 8)
}

/// `n` steps diagonally to a higher rank and a lower file.
pub fn bottom_right_callback(from: i8, n: i8) -> (r: (i8, bool))
    requires
        on_board(from as int),
        0 <= n <= 8,
    ensures
        r.0 == ray_square(from as int, Direction::BottomRight, n as int),
        r.1 == !ray_ok(from as int, Direction::BottomRight, n as int),
{
    let target = from + n * 7;
    (target, from % 8 < n || from + n * 8 > 63)
}

/// `n` steps diagonally to a higher rank and a higher file.
pub fn bottom_left_callback(from: i8, n: i8) -> (r: (i8, bool))
    requires
        on_board(from as int),
        0 <= n <= 8,
        from + 9 * n <= 127,
    ensures
        r.0 == ray_square(from as int, Direction::BottomLeft, n as int),
        r.1 == !ray_ok(from as int, Direction::BottomLeft, n as int),
{
    let target = from + n * 9;
    (target, from % 8 + n > 7 || from + n * 8 > 63)
}

/// One step function for all eight directions.
pub fn step(d: Direction, from: i8, n: i8) -> (r: (i8, bool))
    requires
        on_board(from as int),
        0 <= n <= 7,
    ensures
        r.0 == ray_square(from as int, d, n as int),
        r.1 == !ray_ok(from as int, d, n as int),
{
    match d {
        Direction::Right => right_callback(from, n),
        Direction::Left => left_callback(from, n),
        Direction::Up => up_callback(from, n),
        Direction::Down => down_callback(from, n),
        Direction::TopRight => top_right_callback(from, n),
        Direction::TopLeft => top_left_callback(from, n),
        Direction::BottomRight => bottom_right_callback(from, n),
        Direction::BottomLeft => bottom_left_callback(from, n),
    }
}

} // verus!
