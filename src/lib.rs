//! Editing core of a terminal text editor: grapheme-aware lines, a document
//! buffer, and the viewport that keeps the cursor on screen.

pub mod buffer;
pub mod command;
pub mod cursor;
pub mod editor;
pub mod line;
pub mod terminal;
pub mod unicode;
pub mod view;

pub use editor::Editor;
