//! A free-moving caret confined to the window, independent of any document.

use crate::command::Direction;
use crate::terminal::Size;
use crate::view::{sat_add, sat_sub, Location};
use vstd::prelude::*;

verus! {

/// Where the caret goes from `at` in `direction` inside a window of `size`:
/// one cell at a time, never past the window's last row or column, and to
/// the window's edge for a page or for home and end.
pub open spec fn caret_step(at: Location, direction: Direction, size: Size) -> Location {
    let x = at.grapheme_index;
    let y = at.line_index;
    match direction {
        Direction::Up => Location { grapheme_index: x, line_index: sat_sub(y, 1) },
        Direction::Left => Location { grapheme_index: sat_sub(x, 1), line_index: y },
        Direction::Down => Location {
            grapheme_index: x,
            line_index: if sat_add(y, 1) < size.height {
                sat_add(y, 1)
            } else {
                size.height
            },
        },
        Direction::Right => Location {
            grapheme_index: if sat_add(x, 1) < size.width {
                sat_add(x, 1)
            } else {
                size.width
            },
            line_index: y,
        },
        Direction::PageUp => Location { grapheme_index: x, line_index: 0 },
        Direction::PageDown => Location { grapheme_index: x, line_index: size.height },
        Direction::Home => Location { grapheme_index: 0, line_index: y },
        Direction::End => Location { grapheme_index: size.width, line_index: y },
    }
}

/// A caret at a cell of the window.
#[derive(Clone, Copy)]
pub struct Cursor {
    location: Location,
}

impl Cursor {
    /// The caret's cell: `grapheme_index` is the column, `line_index` the row.
    pub closed spec fn at(self) -> Location {
        self.location
    }

    /// A caret at the top-left cell.
    pub fn new() -> (r: Cursor)
        ensures
            r.at() == (Location { grapheme_index: 0, line_index: 0 }),
    {
        Cursor { location: Location { grapheme_index: 0, line_index: 0 } }
    }

    /// Moves the caret in `direction` inside a window of `size`.
    pub fn move_cursor(&mut self, direction: Direction, size: Size)
        ensures
            final(self).at() == caret_step(old(self).at(), direction, size),
    {
        let Location { grapheme_index: mut x, line_index: mut y } = self.location;
        let height = size.height;
        let width = size.width;
        match direction {
            Direction::Up => y = y.saturating_sub(1),
            Direction::Left => x = x.saturating_sub(1),
            Direction::Down => {
                let next = y.saturating_add(1);
                y = if next < height {
                    next
                } else {
                    height
                };
            },
            Direction::Right => {
                let next = x.saturating_add(1);
                x = if next < width {
                    next
                } else {
                    width
                };
            },
            Direction::PageUp => y = 0,
            Direction::PageDown => y = height,
            Direction::Home => x = 0,
            Direction::End => x = width,
        }
        self.location = Location { grapheme_index: x, line_index: y };
    }

    /// The caret's column.
    pub fn get_col(self) -> (r: usize)
        ensures
            r == self.at().grapheme_index,
    {
        self.location.grapheme_index
    }

    /// The caret's row.
    pub fn get_row(self) -> (r: usize)
        ensures
            r == self.at().line_index,
    {
        self.location.line_index
    }
}

impl Default for Cursor {
    /// A caret at the top-left cell.
    fn default() -> (r: Cursor)
        ensures
            r.at() == (Location { grapheme_index: 0, line_index: 0 }),
    {
        Cursor::new()
    }
}

} // verus!
