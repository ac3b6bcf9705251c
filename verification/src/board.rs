use vstd::prelude::*;
use crate::color::{Color, Piece};

verus! {

/// The board is represented by 24 points, numbered as follows:
/// ```text
/// 0––––––––1 –––––––2
/// |  8–––––9 ––––10 |
/// |  |  16–17–18 |  |
/// 7 –15–23    19–11–3
/// |  |  22–21–20 |  |
/// |  14––––13––––12 |
/// 6––––––––5 –––––––4
/// ```
pub type Point = usize;

/// Number of points on the board.
pub const BOARD_POINTS: usize = 24;

/// Number of lines of three points on which a mill can be formed.
pub const MILL_COUNT: usize = 16;

/// The contents of all points of a board, as a sequence of 24 entries.
pub type BoardView = Seq<Option<Piece>>;

/// The three points of mill line `m` (0 <= m < 16).
pub open spec fn mill_line(m: int) -> (usize, usize, usize) {
    if m == 0 { (0, 1, 2) }
    else if m == 1 { (2, 3, 4) }
    else if m == 2 { (4, 5, 6) }
    else if m == 3 { (0, 6, 7) }
    else if m == 4 { (8, 9, 10) }
    else if m == 5 { (10, 11, 12) }
    else if m == 6 { (12, 13, 14) }
    else if m == 7 { (8, 14, 15) }
    else if m == 8 { (16, 17, 18) }
    else if m == 9 { (18, 19, 20) }
    else if m == 10 { (20, 21, 22) }
    else if m == 11 { (16, 22, 23) }
    else if m == 12 { (1, 9, 17) }
    else if m == 13 { (3, 11, 19) }
    else if m == 14 { (5, 13, 21) }
    else { (7, 15, 23) }
}

/// The points that are joined to point `p` by a line of the board.
pub open spec fn neighbor_list(p: int) -> Seq<usize> {
    if p == 0 { seq![1usize, 7] }
    else if p == 1 { seq![0usize, 2, 9] }
    else if p == 2 { seq![1usize, 3] }
    else if p == 3 { seq![2usize, 4, 11] }
    else if p == 4 { seq![3usize, 5] }
    else if p == 5 { seq![4usize, 6, 13] }
    else if p == 6 { seq![5usize, 7] }
    else if p == 7 { seq![0usize, 6, 15] }
    else if p == 8 { seq![9usize, 15] }
    else if p == 9 { seq![1usize, 8, 10, 17] }
    else if p == 10 { seq![9usize, 11] }
    else if p == 11 { seq![3usize, 10, 12, 19] }
    else if p == 12 { seq![11usize, 13] }
    else if p == 13 { seq![5usize, 12, 14, 21] }
    else if p == 14 { seq![13usize, 15] }
    else if p == 15 { seq![7usize, 8, 14, 23] }
    else if p == 16 { seq![17usize, 23] }
    else if p == 17 { seq![9usize, 16, 18] }
    else if p == 18 { seq![17usize, 19] }
    else if p == 19 { seq![11usize, 18, 20] }
    else if p == 20 { seq![19usize, 21] }
    else if p == 21 { seq![13usize, 20, 22] }
    else if p == 22 { seq![21usize, 23] }
    else { seq![15usize, 16, 22] }
}

/// Point `q` is joined to point `p` by a line of the board.
pub open spec fn adjacent(p: int, q: usize) -> bool {
    neighbor_list(p).contains(q)
}

/// Point `p` lies on mill line `m`.
pub open spec fn on_line(m: int, p: usize) -> bool {
    let (a, b, c) = mill_line(m);
    a == p || b == p || c == p
}

/// All three points of mill line `m` hold a piece of `c`.
pub open spec fn line_full(board: BoardView, m: int, c: Color) -> bool {
    let (a, b, d) = mill_line(m);
    &&& board[a as int] == Some(c)
    &&& board[b as int] == Some(c)
    &&& board[d as int] == Some(c)
}

/// Some mill line through `p` is fully held by `c`.
pub open spec fn mill_through(board: BoardView, p: usize, c: Color) -> bool {
    exists|m: int| 0 <= m < 16 && #[trigger] on_line(m, p) && line_full(board, m, c)
}

/// The piece on `p`, if any, is part of a mill of its own color.
pub open spec fn in_mill(board: BoardView, p: usize) -> bool {
    match board[p as int] {
        Some(c) => mill_through(board, p, c),
        None => false,
    }
}

/// The number of points of `board` that hold a piece of `c`.
pub open spec fn count_color(board: BoardView, c: Color) -> nat
    decreases board.len(),
{
    if board.len() == 0 {
        0
    } else {
        count_color(board.drop_last(), c) + if board.last() == Some(c) { 1nat } else { 0nat }
    }
}

/// The three points of mill line `m`.
pub fn mill(m: usize) -> (r: (usize, usize, usize))
    requires
        m < MILL_COUNT,
    ensures
        r == mill_line(m as int),
{
    match m {
        0 => (0, 1, 2),
        1 => (2, 3, 4),
        2 => (4, 5, 6),
        3 => (0, 6, 7),
        4 => (8, 9, 10),
        5 => (10, 11, 12),
        6 => (12, 13, 14),
        7 => (8, 14, 15),
        8 => (16, 17, 18),
        9 => (18, 19, 20),
        10 => (20, 21, 22),
        11 => (16, 22, 23),
        12 => (1, 9, 17),
        13 => (3, 11, 19),
        14 => (5, 13, 21),
        _ => (7, 15, 23),
    }
}

/// The points joined to `p` by a line of the board.
pub fn neighbors(p: Point) -> (r: Vec<usize>)
    requires
        p < BOARD_POINTS,
    ensures
        r@ == neighbor_list(p as int),
{
    match p {
        0 => vec![1, 7],
        1 => vec![0, 2, 9],
        2 => vec![1, 3],
        3 => vec![2, 4, 11],
        4 => vec![3, 5],
        5 => vec![4, 6, 13],
        6 => vec![5, 7],
        7 => vec![0, 6, 15],
        8 => vec![9, 15],
        9 => vec![1, 8, 10, 17],
        10 => vec![9, 11],
        11 => vec![3, 10, 12, 19],
        12 => vec![11, 13],
        13 => vec![5, 12, 14, 21],
        14 => vec![13, 15],
        15 => vec![7, 8, 14, 23],
        16 => vec![17, 23],
        17 => vec![9, 16, 18],
        18 => vec![17, 19],
        19 => vec![11, 18, 20],
        20 => vec![19, 21],
        21 => vec![13, 20, 22],
        22 => vec![21, 23],
        _ => vec![15, 16, 22],
    }
}

/// Every neighbor of a point is a point of the board, and the lines of the
/// board join points both ways.
pub proof fn lemma_neighbor_table(p: int)
    requires
        0 <= p < 24,
    ensures
        forall|k: int| 0 <= k < neighbor_list(p).len() ==> #[trigger] neighbor_list(p)[k] < 24,
        forall|k: int| 0 <= k < neighbor_list(p).len() ==> adjacent(#[trigger] neighbor_list(p)[k] as int, p as usize),
{
}

/// Every mill line lies on the board.
pub proof fn lemma_mill_on_board(m: int)
    requires
        0 <= m < 16,
    ensures
        mill_line(m).0 < 24 && mill_line(m).1 < 24 && mill_line(m).2 < 24,
{
}

} // verus!
