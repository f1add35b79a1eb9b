//! The commands the editing core accepts, already decoded from input events.

use crate::terminal::Size;
use vstd::prelude::*;

verus! {

/// A direction in which the cursor moves.
#[derive(Clone, Copy, PartialEq, Eq, Structural)]
pub enum Direction {
    Up,
    Down,
    Left,
    Right,
    PageUp,
    PageDown,
    Home,
    End,
}

/// One command for the editor.
#[derive(Clone, Copy, PartialEq, Eq, Structural)]
pub enum EditorCommand {
    Move(Direction),
    Resize(Size),
    Quit,
    Insert(char),
    Backspace,
    Delete,
    Tab,
    Enter,
    Save,
}

} // verus!
