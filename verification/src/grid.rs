//! Directions and the geometry of the bordered grid.

use vstd::prelude::*;

verus! {

/// One of the four headings a snake can take. There is no diagonal and no
/// neutral value.
#[derive(Clone, Copy, Debug, PartialEq, Eq, Structural)]
pub enum Direction {
    Up,
    Down,
    Left,
    Right,
}

/// A stored cell `(row, col)` read as a pair of mathematical integers.
pub open spec fn pos(cell: (usize, usize)) -> (int, int) {
    (cell.0 as int, cell.1 as int)
}

/// A sequence of stored cells read as a sequence of integer pairs.
pub open spec fn cells(stored: Seq<(usize, usize)>) -> Seq<(int, int)> {
    stored.map_values(|c: (usize, usize)| pos(c))
}

/// The cell one step away from `from` in direction `d`. Rows grow downwards and
/// columns grow to the right.
pub open spec fn neighbour(from: (int, int), d: Direction) -> (int, int) {
    match d {
        Direction::Up => (from.0 - 1, from.1),
        Direction::Down => (from.0 + 1, from.1),
        Direction::Left => (from.0, from.1 - 1),
        Direction::Right => (from.0, from.1 + 1),
    }
}

/// `p` is a cell of a `height` by `width` grid, border included.
pub open spec fn on_board(height: int, width: int, p: (int, int)) -> bool {
    0 <= p.0 < height && 0 <= p.1 < width
}

/// `p` lies strictly inside the one-cell border of a `height` by `width` grid.
pub open spec fn in_interior(height: int, width: int, p: (int, int)) -> bool {
    1 <= p.0 <= height - 2 && 1 <= p.1 <= width - 2
}

/// `p` lies on the one-cell border of a `height` by `width` grid.
pub open spec fn on_border(height: int, width: int, p: (int, int)) -> bool {
    on_board(height, width, p) && !in_interior(height, width, p)
}

} // verus!
