//! Screen geometry: the size of the viewport and positions on it, counted in
//! character cells.

use vstd::prelude::*;

verus! {

/// The size of the terminal window, in rows and columns.
#[derive(Clone, Copy, PartialEq, Eq, Structural)]
pub struct Size {
    pub height: usize,
    pub width: usize,
}

impl Size {
    /// The size of a window `width` columns wide and `height` rows high.
    pub fn new(width: u16, height: u16) -> (r: Size)
        ensures
            r.width == width,
            r.height == height,
    {
        Size { height: height as usize, width: width as usize }
    }
}

impl Default for Size {
    /// A window with no rows and no columns.
    fn default() -> (r: Size)
        ensures
            r.height == 0,
            r.width == 0,
    {
        Size { height: 0, width: 0 }
    }
}

/// A cell of the terminal window, or a row and column of the document's
/// rendering.
#[derive(Clone, Copy, PartialEq, Eq, Structural)]
pub struct Position {
    pub row: usize,
    pub col: usize,
}

impl Position {
    /// The position at row `x`, column `y`.
    pub fn new(x: usize, y: usize) -> (r: Position)
        ensures
            r.row == x,
            r.col == y,
    {
        Position { row: x, col: y }
    }

    /// Component-wise difference, stopping at zero.
    pub fn saturating_sub(self, other: Position) -> (r: Position)
        ensures
            r == position_minus(self, other),
    {
        Position {
            row: self.row.saturating_sub(other.row),
            col: self.col.saturating_sub(other.col),
        }
    }
}

/// Component-wise difference of two positions, stopping at zero.
pub open spec fn position_minus(a: Position, b: Position) -> Position {
    Position {
        row: if a.row >= b.row { (a.row - b.row) as usize } else { 0 },
        col: if a.col >= b.col { (a.col - b.col) as usize } else { 0 },
    }
}

impl Default for Position {
    /// The top-left cell.
    fn default() -> (r: Position)
        ensures
            r.row == 0,
            r.col == 0,
    {
        Position { row: 0, col: 0 }
    }
}

} // verus!
