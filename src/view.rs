//! The viewport: maps document locations to screen positions, keeps the
//! cursor visible by scrolling, and applies editing and movement commands.

use crate::buffer::{after_delete, after_insert, after_newline, joined_text, line_len, segmented_lines, Buffer};
use crate::command::{Direction, EditorCommand};
use crate::line::{visible_text, width_before};
use crate::terminal::{position_minus, Position, Size};
use vstd::prelude::*;
use vstd::view::View as _;

verus! {

/// A position in the document: a line, and a grapheme index within it that
/// may equal the line's grapheme count (the end of the line).
#[derive(Clone, Copy, PartialEq, Eq, Structural)]
pub struct Location {
    pub grapheme_index: usize,
    pub line_index: usize,
}

impl Default for Location {
    /// The start of the document.
    fn default() -> (r: Location)
        ensures
            r.grapheme_index == 0,
            r.line_index == 0,
    {
        Location { grapheme_index: 0, line_index: 0 }
    }
}

/// Spaces typed for one tab.
pub const TAB_SIZE: usize = 4;

/// `a + b`, stopping at `usize::MAX`.
pub open spec fn sat_add(a: usize, b: usize) -> usize {
    if a + b > usize::MAX {
        usize::MAX
    } else {
        (a + b) as usize
    }
}

/// `a - b`, stopping at zero.
pub open spec fn sat_sub(a: usize, b: usize) -> usize {
    if a >= b {
        (a - b) as usize
    } else {
        0
    }
}

/// Pulls the grapheme index back to the end of its line when it is past it;
/// zero on a line that does not exist.
pub open spec fn snap_grapheme(ls: Seq<Seq<Seq<char>>>, at: Location) -> Location {
    Location {
        grapheme_index: if (at.line_index as int) < ls.len() {
            if (at.grapheme_index as int) < ls[at.line_index as int].len() {
                at.grapheme_index
            } else {
                ls[at.line_index as int].len() as usize
            }
        } else {
            0
        },
        line_index: at.line_index,
    }
}

/// Pulls the line index back to just past the last line.
pub open spec fn snap_line(ls: Seq<Seq<Seq<char>>>, at: Location) -> Location {
    Location {
        grapheme_index: at.grapheme_index,
        line_index: if (at.line_index as int) <= ls.len() {
            at.line_index
        } else {
            ls.len() as usize
        },
    }
}

/// `n` lines up, then snapped into the line.
pub open spec fn moved_up(ls: Seq<Seq<Seq<char>>>, at: Location, n: usize) -> Location {
    snap_grapheme(
        ls,
        Location { grapheme_index: at.grapheme_index, line_index: sat_sub(at.line_index, n) },
    )
}

/// `n` lines down, snapped into the line, and no further than just past the
/// last line.
pub open spec fn moved_down(ls: Seq<Seq<Seq<char>>>, at: Location, n: usize) -> Location {
    snap_line(
        ls,
        snap_grapheme(
            ls,
            Location { grapheme_index: at.grapheme_index, line_index: sat_add(at.line_index, n) },
        ),
    )
}

/// The start of the line.
pub open spec fn moved_home(at: Location) -> Location {
    Location { grapheme_index: 0, line_index: at.line_index }
}

/// The end of the line.
pub open spec fn moved_end(ls: Seq<Seq<Seq<char>>>, at: Location) -> Location {
    Location {
        grapheme_index: line_len(ls, at.line_index as int) as usize,
        line_index: at.line_index,
    }
}

/// One grapheme left, or the end of the line above from the start of a line.
pub open spec fn moved_left(ls: Seq<Seq<Seq<char>>>, at: Location) -> Location {
    if at.grapheme_index == 0 {
        if at.line_index == 0 {
            at
        } else {
            moved_end(ls, moved_up(ls, at, 1))
        }
    } else {
        Location { grapheme_index: (at.grapheme_index - 1) as usize, line_index: at.line_index }
    }
}

/// One grapheme right, or the start of the next line from the end of a line
/// that has one; at the end of the last line the cursor stays.
pub open spec fn moved_right(ls: Seq<Seq<Seq<char>>>, at: Location) -> Location {
    if at.grapheme_index >= line_len(ls, at.line_index as int) {
        if at.line_index + 1 < ls.len() {
            Location { grapheme_index: 0, line_index: (at.line_index + 1) as usize }
        } else {
            at
        }
    } else {
        Location { grapheme_index: (at.grapheme_index + 1) as usize, line_index: at.line_index }
    }
}

/// Where the cursor goes from `at` in `direction`; a page is `page` lines.
pub open spec fn moved(
    ls: Seq<Seq<Seq<char>>>,
    page: usize,
    at: Location,
    direction: Direction,
) -> Location {
    match direction {
        Direction::Up => moved_up(ls, at, 1),
        Direction::Down => moved_down(ls, at, 1),
        Direction::PageUp => moved_up(ls, at, page),
        Direction::PageDown => moved_down(ls, at, page),
        Direction::Left => moved_left(ls, at),
        Direction::Right => moved_right(ls, at),
        Direction::Home => moved_home(at),
        Direction::End => moved_end(ls, at),
    }
}

/// The screen cell of a location before scrolling: its line, and the width
/// of what precedes it on that line.
pub open spec fn position_of(ls: Seq<Seq<Seq<char>>>, at: Location) -> Position {
    Position {
        row: at.line_index,
        col: if (at.line_index as int) < ls.len() {
            width_before(ls[at.line_index as int], at.grapheme_index as int) as usize
        } else {
            0
        },
    }
}

/// Whether scrolling one axis to show `to` moves the offset: `to` is before
/// the first shown cell or at or after the end of the shown extent.
pub open spec fn scroll_moves(offset: usize, extent: usize, to: usize) -> bool {
    to < offset || to >= sat_add(offset, extent)
}

/// The offset of one axis after scrolling to show `to`: `to` itself when it
/// is before the shown cells, the offset that makes `to` the last shown cell
/// when it is after them, and unchanged otherwise.
pub open spec fn scroll_axis(offset: usize, extent: usize, to: usize) -> usize {
    if to < offset {
        to
    } else if to >= sat_add(offset, extent) {
        sat_add(sat_sub(to, extent), 1)
    } else {
        offset
    }
}

/// The scroll offset after scrolling both axes to show `target`.
pub open spec fn scrolled(offset: Position, size: Size, target: Position) -> Position {
    Position {
        row: scroll_axis(offset.row, size.height, target.row),
        col: scroll_axis(offset.col, size.width, target.col),
    }
}

/// Whether a redraw is due after scrolling to show `target`.
pub open spec fn redraw_after_scroll(
    redraw: bool,
    offset: Position,
    size: Size,
    target: Position,
) -> bool {
    redraw || scroll_moves(offset.row, size.height, target.row) || scroll_moves(
        offset.col,
        size.width,
        target.col,
    )
}

/// The text shown on screen row `r`: the visible part of the document line
/// there, or `~` below the last line.
pub open spec fn row_text(ls: Seq<Seq<Seq<char>>>, offset: Position, size: Size, r: int) -> Seq<
    char,
> {
    let y = sat_add(r as usize, offset.row) as int;
    if y < ls.len() {
        visible_text(ls[y], offset.col as int, sat_add(offset.col, size.width) as int)
    } else {
        seq!['~']
    }
}

/// The document on a terminal: its buffer, the cursor's location in it,
/// the viewport's size and scroll offset, and whether a redraw is due.
pub struct View {
    buffer: Buffer,
    need_redraw: bool,
    size: Size,
    text_location: Location,
    scroll_offset: Position,
}

impl View {
    /// The buffer is well formed.
    pub closed spec fn wf(&self) -> bool {
        self.buffer.wf()
    }

    /// The document's lines, each as its grapheme clusters.
    pub closed spec fn lines(&self) -> Seq<Seq<Seq<char>>> {
        self.buffer@
    }

    /// The cursor's location in the document.
    pub closed spec fn location(&self) -> Location {
        self.text_location
    }

    /// The document cell shown at the viewport's top-left corner.
    pub closed spec fn offset(&self) -> Position {
        self.scroll_offset
    }

    /// The viewport's size.
    pub closed spec fn viewport(&self) -> Size {
        self.size
    }

    /// Whether the screen must be drawn again.
    pub closed spec fn needs_redraw(&self) -> bool {
        self.need_redraw
    }

    /// A document never has more lines than a `usize` can count.
    pub proof fn lemma_lines_fit(&self)
        ensures
            self.lines().len() <= usize::MAX,
    {
        self.buffer.lemma_height_fits();
    }
}

impl Default for View {
    /// An empty document in a zero-sized viewport, with a redraw due.
    fn default() -> (r: View)
        ensures
            r.wf(),
            r.lines() == Seq::<Seq<Seq<char>>>::empty(),
            r.location() == (Location { grapheme_index: 0, line_index: 0 }),
            r.offset() == (Position { row: 0, col: 0 }),
            r.viewport() == (Size { height: 0, width: 0 }),
            r.needs_redraw(),
    {
        View {
            buffer: Buffer::default(),
            need_redraw: true,
            size: Size::default(),
            text_location: Location::default(),
            scroll_offset: Position::default(),
        }
    }
}

impl View {
    /// The rows to draw, top to bottom, when a redraw is due (and then no
    /// longer due); `None` when the screen is up to date.
    pub fn render(&mut self) -> (r: Option<Vec<String>>)
        requires
            old(self).wf(),
        ensures
            final(self).wf(),
            final(self).lines() == old(self).lines(),
            final(self).location() == old(self).location(),
            final(self).offset() == old(self).offset(),
            final(self).viewport() == old(self).viewport(),
            !final(self).needs_redraw(),
            !old(self).needs_redraw() ==> r is None,
            old(self).needs_redraw() ==> (r matches Some(rows) && rows@.len()
                == old(self).viewport().height && forall|i: int|
                0 <= i < rows@.len() ==> (#[trigger] rows@[i])@ == row_text(
                    old(self).lines(),
                    old(self).offset(),
                    old(self).viewport(),
                    i,
                )),
    {
        if !self.need_redraw {
            return None;
        }
        let height = self.size.height;
        let width = self.size.width;
        let top = self.scroll_offset.row;
        let left = self.scroll_offset.col;
        let right = left.saturating_add(width);
        let mut rows: Vec<String> = Vec::new();
        let mut current_row: usize = 0;
        while current_row < height
            invariant
                self.wf(),
                height == self.size.height,
                width == self.size.width,
                top == self.scroll_offset.row,
                left == self.scroll_offset.col,
                right == sat_add(left, width),
                current_row <= height,
                rows@.len() == current_row,
                forall|i: int|
                    0 <= i < current_row ==> (#[trigger] rows@[i])@ == row_text(
                        self.lines(),
                        self.scroll_offset,
                        self.size,
                        i,
                    ),
            decreases height - current_row,
        {
            let text = match self.buffer.line(current_row.saturating_add(top)) {
                Some(line) => line.get_visible_graphemes(left..right),
                None => {
                    let mut marker = String::new();
                    crate::unicode::push_char(&mut marker, '~');
                    proof {
                        assert(marker@ =~= seq!['~']);
                    }
                    marker
                },
            };
            rows.push(text);
            current_row += 1;
        }
        self.need_redraw = false;
        Some(rows)
    }

    /// Applies one command, as `command_done` describes.
    pub fn handle_command(&mut self, command: EditorCommand)
        requires
            old(self).wf(),
        ensures
            command_done(*old(self), *final(self), command),
    {
        match command {
            EditorCommand::Resize(size) => self.resize(size),
            EditorCommand::Move(direction) => self.move_text_location(&direction),
            EditorCommand::Quit => (),
            EditorCommand::Insert(character) => self.insert_character(character),
            EditorCommand::Backspace => self.backspace(),
            EditorCommand::Delete => self.delete(),
            EditorCommand::Tab => self.insert_tab(),
            EditorCommand::Enter => self.insert_newline(),
            EditorCommand::Save => (),
        }
    }

    /// Replaces the document with one built from source text, keeping the
    /// cursor and scroll offset, with a redraw due.
    pub fn load(&mut self, contents: &str)
        requires
            old(self).wf(),
        ensures
            final(self).wf(),
            final(self).lines() == segmented_lines(contents@),
            final(self).location() == old(self).location(),
            final(self).offset() == old(self).offset(),
            final(self).viewport() == old(self).viewport(),
            final(self).needs_redraw(),
    {
        self.buffer = Buffer::load(contents);
        self.need_redraw = true;
    }

    /// The cursor's cell in the document's rendering, before scrolling.
    pub fn text_location_to_position(&self) -> (r: Position)
        requires
            self.wf(),
        ensures
            r == position_of(self.lines(), self.location()),
    {
        let row = self.text_location.line_index;
        let col = match self.buffer.line(row) {
            Some(line) => line.width_until(self.text_location.grapheme_index),
            None => 0,
        };
        Position { col, row }
    }

    /// Moves the cursor in `direction` and scrolls to keep it in view.
    pub fn move_text_location(&mut self, direction: &Direction)
        requires
            old(self).wf(),
        ensures
            final(self).wf(),
            move_done(*old(self), *final(self), *direction),
            final(self).viewport().height > 0 && final(self).viewport().width > 0 ==> cursor_in_view(
                *final(self),
            ),
    {
        let ghost before = *self;
        match direction {
            Direction::Up => self.move_up(),
            Direction::Down => self.move_down(),
            Direction::PageUp => self.move_page_up(),
            Direction::PageDown => self.move_page_down(),
            Direction::Left => self.move_left(),
            Direction::Right => self.move_right(),
            Direction::Home => self.move_home(),
            Direction::End => self.move_end(),
        }
        self.scroll_location_into_view();
        proof {
            if self.size.height > 0 && self.size.width > 0 {
                lemma_move_keeps_cursor_visible(before, *self, *direction);
            }
        }
    }

    /// Grapheme count of line `line_index`, zero past the last line.
    fn line_length(&self, line_index: usize) -> (r: usize)
        requires
            self.wf(),
        ensures
            r == line_len(self.lines(), line_index as int),
    {
        match self.buffer.line(line_index) {
            Some(line) => line.len(),
            None => 0,
        }
    }

    fn move_up(&mut self)
        requires
            old(self).wf(),
        ensures
            only_location_changed(*old(self), *final(self)),
            final(self).location() == moved_up(old(self).lines(), old(self).location(), 1),
    {
        self.text_location.line_index = self.text_location.line_index.saturating_sub(1);
        self.snap_to_valid_grapheme();
    }

    fn move_down(&mut self)
        requires
            old(self).wf(),
        ensures
            only_location_changed(*old(self), *final(self)),
            final(self).location() == moved_down(old(self).lines(), old(self).location(), 1),
    {
        self.text_location.line_index = self.text_location.line_index.saturating_add(1);
        self.snap_to_valid_grapheme();
        self.snap_to_valid_line();
    }

    fn move_page_up(&mut self)
        requires
            old(self).wf(),
        ensures
            only_location_changed(*old(self), *final(self)),
            final(self).location() == moved_up(
                old(self).lines(),
                old(self).location(),
                old(self).viewport().height,
            ),
    {
        let height = self.size.height;
        self.text_location.line_index = self.text_location.line_index.saturating_sub(height);
        self.snap_to_valid_grapheme();
    }

    fn move_page_down(&mut self)
        requires
            old(self).wf(),
        ensures
            only_location_changed(*old(self), *final(self)),
            final(self).location() == moved_down(
                old(self).lines(),
                old(self).location(),
                old(self).viewport().height,
            ),
    {
        let height = self.size.height;
        self.text_location.line_index = self.text_location.line_index.saturating_add(height);
        self.snap_to_valid_grapheme();
        self.snap_to_valid_line();
    }

    fn move_left(&mut self)
        requires
            old(self).wf(),
        ensures
            only_location_changed(*old(self), *final(self)),
            final(self).location() == moved_left(old(self).lines(), old(self).location()),
    {
        if self.text_location.grapheme_index == 0 {
            if self.text_location.line_index == 0 {
                return;
            }
            self.move_up();
            self.move_end();
        } else {
            self.text_location.grapheme_index -= 1;
        }
    }

    fn move_right(&mut self)
        requires
            old(self).wf(),
        ensures
            only_location_changed(*old(self), *final(self)),
            final(self).location() == moved_right(old(self).lines(), old(self).location()),
    {
        let line_len = self.line_length(self.text_location.line_index);
        if self.text_location.grapheme_index >= line_len {
            let next = self.text_location.line_index.saturating_add(1);
            if next < self.buffer.height() {
                self.text_location = Location { grapheme_index: 0, line_index: next };
            }
        } else {
            self.text_location.grapheme_index += 1;
        }
    }

    fn move_home(&mut self)
        requires
            old(self).wf(),
        ensures
            only_location_changed(*old(self), *final(self)),
            final(self).location() == moved_home(old(self).location()),
    {
        self.text_location.grapheme_index = 0;
    }

    fn move_end(&mut self)
        requires
            old(self).wf(),
        ensures
            only_location_changed(*old(self), *final(self)),
            final(self).location() == moved_end(old(self).lines(), old(self).location()),
    {
        self.text_location.grapheme_index = self.line_length(self.text_location.line_index);
    }

    /// Pulls the grapheme index back into the current line; does not scroll.
    fn snap_to_valid_grapheme(&mut self)
        requires
            old(self).wf(),
        ensures
            only_location_changed(*old(self), *final(self)),
            final(self).location() == snap_grapheme(old(self).lines(), old(self).location()),
    {
        self.text_location.grapheme_index = match self.buffer.line(self.text_location.line_index) {
            Some(line) => {
                let count = line.grapheme_count();
                if self.text_location.grapheme_index < count {
                    self.text_location.grapheme_index
                } else {
                    count
                }
            },
            None => 0,
        };
    }

    /// Pulls the line index back to just past the last line; does not scroll.
    fn snap_to_valid_line(&mut self)
        requires
            old(self).wf(),
        ensures
            only_location_changed(*old(self), *final(self)),
            final(self).location() == snap_line(old(self).lines(), old(self).location()),
    {
        let height = self.buffer.height();
        if self.text_location.line_index > height {
            self.text_location.line_index = height;
        }
    }

    /// Takes the new viewport size, scrolls to keep the cursor in view, and
    /// asks for a redraw.
    pub fn resize(&mut self, new_size: Size)
        requires
            old(self).wf(),
        ensures
            final(self).wf(),
            resize_done(*old(self), *final(self), new_size),
    {
        self.size = new_size;
        self.scroll_location_into_view();
        self.need_redraw = true;
    }

    fn scroll_vertically(&mut self, to: usize)
        requires
            old(self).wf(),
        ensures
            final(self).wf(),
            final(self).lines() == old(self).lines(),
            final(self).location() == old(self).location(),
            final(self).viewport() == old(self).viewport(),
            final(self).offset() == (Position {
                row: scroll_axis(old(self).offset().row, old(self).viewport().height, to),
                col: old(self).offset().col,
            }),
            final(self).needs_redraw() == (old(self).needs_redraw() || scroll_moves(
                old(self).offset().row,
                old(self).viewport().height,
                to,
            )),
    {
        let height = self.size.height;
        if to < self.scroll_offset.row {
            self.scroll_offset.row = to;
            self.need_redraw = true;
        } else if to >= self.scroll_offset.row.saturating_add(height) {
            self.scroll_offset.row = to.saturating_sub(height).saturating_add(1);
            self.need_redraw = true;
        }
    }

    fn scroll_horizontally(&mut self, to: usize)
        requires
            old(self).wf(),
        ensures
            final(self).wf(),
            final(self).lines() == old(self).lines(),
            final(self).location() == old(self).location(),
            final(self).viewport() == old(self).viewport(),
            final(self).offset() == (Position {
                row: old(self).offset().row,
                col: scroll_axis(old(self).offset().col, old(self).viewport().width, to),
            }),
            final(self).needs_redraw() == (old(self).needs_redraw() || scroll_moves(
                old(self).offset().col,
                old(self).viewport().width,
                to,
            )),
    {
        let width = self.size.width;
        if to < self.scroll_offset.col {
            self.scroll_offset.col = to;
            self.need_redraw = true;
        } else if to >= self.scroll_offset.col.saturating_add(width) {
            self.scroll_offset.col = to.saturating_sub(width).saturating_add(1);
            self.need_redraw = true;
        }
    }

    /// Scrolls so that the cursor's cell is inside the viewport, moving the
    /// offset only on an axis where the cursor was outside.
    pub fn scroll_location_into_view(&mut self)
        requires
            old(self).wf(),
        ensures
            final(self).wf(),
            final(self).lines() == old(self).lines(),
            final(self).location() == old(self).location(),
            final(self).viewport() == old(self).viewport(),
            scrolled_to(
                *old(self),
                *final(self),
                position_of(old(self).lines(), old(self).location()),
            ),
    {
        let position = self.text_location_to_position();
        self.scroll_vertically(position.row);
        self.scroll_horizontally(position.col);
    }

    /// The cursor's cell in the viewport: its cell in the document less the
    /// scroll offset, stopping at zero.
    pub fn cursor_position(&self) -> (r: Position)
        requires
            self.wf(),
        ensures
            r == cursor_cell(*self),
    {
        self.text_location_to_position().saturating_sub(self.scroll_offset)
    }

    /// Types `character` at the cursor, as `insert_done` describes.
    pub fn insert_character(&mut self, character: char)
        requires
            old(self).wf(),
        ensures
            final(self).wf(),
            insert_done(*old(self), *final(self), character),
    {
        let old_len = self.line_length(self.text_location.line_index);
        self.buffer.insert_char(character, self.text_location);
        let new_len = self.line_length(self.text_location.line_index);
        let grapheme_delta = new_len.saturating_sub(old_len);
        if grapheme_delta > 0 {
            self.move_text_location(&Direction::Right);
        }
        self.need_redraw = true;
    }

    /// Deletes the grapheme behind the cursor, as `backspace_done` describes.
    pub fn backspace(&mut self)
        requires
            old(self).wf(),
        ensures
            final(self).wf(),
            backspace_done(*old(self), *final(self)),
    {
        if self.text_location.line_index == 0 && self.text_location.grapheme_index == 0 {
            return;
        }
        self.move_text_location(&Direction::Left);
        self.delete();
    }

    /// Deletes forward at the cursor, as `delete_done` describes.
    pub fn delete(&mut self)
        requires
            old(self).wf(),
        ensures
            final(self).wf(),
            delete_done(*old(self), *final(self)),
    {
        self.buffer.delete_char(self.text_location);
        self.need_redraw = true;
    }

    /// Types a tab as spaces, as `tab_done` describes.
    pub fn insert_tab(&mut self)
        requires
            old(self).wf(),
        ensures
            final(self).wf(),
            tab_done(*old(self), *final(self)),
            final(self).viewport().height > 0 && final(self).viewport().width > 0 ==> cursor_in_view(
                *final(self),
            ),
    {
        let ghost ls = self.lines();
        let ghost at = self.location();
        let mut typed: usize = 0;
        while typed < TAB_SIZE
            invariant
                self.wf(),
                typed <= TAB_SIZE,
                (self.lines(), self.location()) == typed_spaces(ls, at, typed as nat),
                self.size == old(self).size,
                self.scroll_offset == old(self).scroll_offset,
            decreases TAB_SIZE - typed,
        {
            self.buffer.insert_char(' ', self.text_location);
            self.text_location.grapheme_index = self.text_location.grapheme_index.saturating_add(1);
            typed += 1;
        }
        self.scroll_location_into_view();
        self.need_redraw = true;
        proof {
            if self.size.height > 0 && self.size.width > 0 {
                lemma_scrolled_shows(
                    old(self).scroll_offset,
                    self.size,
                    position_of(self.lines(), self.location()),
                );
            }
        }
    }

    /// Breaks the line at the cursor, as `newline_done` describes.
    pub fn insert_newline(&mut self)
        requires
            old(self).wf(),
        ensures
            final(self).wf(),
            newline_done(*old(self), *final(self)),
    {
        self.buffer.insert_newline(self.text_location);
        self.move_text_location(&Direction::Right);
        self.need_redraw = true;
    }

    /// The document as text to store: its lines joined with line feeds.
    pub fn save(&self) -> (r: String)
        ensures
            r@ == joined_text(self.lines()),
    {
        self.buffer.save()
    }
}

/// The cursor's cell in the viewport.
pub open spec fn cursor_cell(v: View) -> Position {
    position_minus(position_of(v.lines(), v.location()), v.offset())
}

/// The cursor's cell lies inside the viewport.
pub open spec fn cursor_in_view(v: View) -> bool {
    cursor_cell(v).row < v.viewport().height && cursor_cell(v).col < v.viewport().width
}

/// `after` is `before` with its scroll offset set to show the cell at
/// `target`.
pub open spec fn scrolled_to(before: View, after: View, target: Position) -> bool {
    &&& after.offset() == scrolled(before.offset(), before.viewport(), target)
    &&& after.needs_redraw() == redraw_after_scroll(
        before.needs_redraw(),
        before.offset(),
        before.viewport(),
        target,
    )
}

/// `after` is `before` with the cursor moved in `direction` and the view
/// scrolled to show it.
pub open spec fn move_done(before: View, after: View, direction: Direction) -> bool {
    let at = moved(before.lines(), before.viewport().height, before.location(), direction);
    &&& after.lines() == before.lines()
    &&& after.viewport() == before.viewport()
    &&& after.location() == at
    &&& scrolled_to(before, after, position_of(before.lines(), at))
}

/// `after` differs from `before` in the cursor's location at most.
pub open spec fn only_location_changed(before: View, after: View) -> bool {
    &&& after.wf()
    &&& after.lines() == before.lines()
    &&& after.viewport() == before.viewport()
    &&& after.offset() == before.offset()
    &&& after.needs_redraw() == before.needs_redraw()
}

/// `after` is `before` with nothing changed.
pub open spec fn unchanged(before: View, after: View) -> bool {
    &&& only_location_changed(before, after)
    &&& after.location() == before.location()
}

/// `after` is `before` resized to `size` and scrolled to show the cursor,
/// with a redraw due.
pub open spec fn resize_done(before: View, after: View, size: Size) -> bool {
    &&& after.lines() == before.lines()
    &&& after.location() == before.location()
    &&& after.viewport() == size
    &&& after.offset() == scrolled(
        before.offset(),
        size,
        position_of(before.lines(), before.location()),
    )
    &&& after.needs_redraw()
}

/// `after` is `before` with `c` typed at the cursor; when the cursor's line
/// gained a grapheme the cursor moves right past it.
pub open spec fn insert_done(before: View, after: View, c: char) -> bool {
    let ls = after_insert(before.lines(), c, before.location());
    let y = before.location().line_index as int;
    let grew = line_len(ls, y) > line_len(before.lines(), y);
    let at = moved(ls, before.viewport().height, before.location(), Direction::Right);
    &&& after.lines() == ls
    &&& after.viewport() == before.viewport()
    &&& grew ==> after.location() == at && after.offset() == scrolled(
        before.offset(),
        before.viewport(),
        position_of(ls, at),
    )
    &&& !grew ==> after.location() == before.location() && after.offset() == before.offset()
    &&& after.needs_redraw()
}

/// `after` is `before` with the grapheme at the cursor deleted forward.
pub open spec fn delete_done(before: View, after: View) -> bool {
    &&& after.lines() == after_delete(before.lines(), before.location())
    &&& after.viewport() == before.viewport()
    &&& after.location() == before.location()
    &&& after.offset() == before.offset()
    &&& after.needs_redraw()
}

/// `after` is `before` with the grapheme behind the cursor deleted: the
/// cursor moves left, then deletes forward. Nothing happens at the start of
/// the document.
pub open spec fn backspace_done(before: View, after: View) -> bool {
    let at = moved(before.lines(), before.viewport().height, before.location(), Direction::Left);
    if before.location().line_index == 0 && before.location().grapheme_index == 0 {
        unchanged(before, after)
    } else {
        &&& after.lines() == after_delete(before.lines(), at)
        &&& after.viewport() == before.viewport()
        &&& after.location() == at
        &&& after.offset() == scrolled(
            before.offset(),
            before.viewport(),
            position_of(before.lines(), at),
        )
        &&& after.needs_redraw()
    }
}

/// The lines and cursor after typing `n` spaces from `at`, the cursor
/// advancing one grapheme per space.
pub open spec fn typed_spaces(ls: Seq<Seq<Seq<char>>>, at: Location, n: nat) -> (
    Seq<Seq<Seq<char>>>,
    Location,
)
    decreases n,
{
    if n == 0 {
        (ls, at)
    } else {
        let (ls2, at2) = typed_spaces(ls, at, (n - 1) as nat);
        (
            after_insert(ls2, ' ', at2),
            Location {
                grapheme_index: sat_add(at2.grapheme_index, 1),
                line_index: at2.line_index,
            },
        )
    }
}

/// `after` is `before` with a tab typed as spaces and the view scrolled to
/// show the cursor, with a redraw due.
pub open spec fn tab_done(before: View, after: View) -> bool {
    &&& (after.lines(), after.location()) == typed_spaces(
        before.lines(),
        before.location(),
        TAB_SIZE as nat,
    )
    &&& after.viewport() == before.viewport()
    &&& after.offset() == scrolled(
        before.offset(),
        before.viewport(),
        position_of(after.lines(), after.location()),
    )
    &&& after.needs_redraw()
}

/// `after` is `before` with the line broken at the cursor and the cursor
/// moved right, onto the new line.
pub open spec fn newline_done(before: View, after: View) -> bool {
    let ls = after_newline(before.lines(), before.location());
    let at = moved(ls, before.viewport().height, before.location(), Direction::Right);
    &&& after.lines() == ls
    &&& after.viewport() == before.viewport()
    &&& after.location() == at
    &&& after.offset() == scrolled(before.offset(), before.viewport(), position_of(ls, at))
    &&& after.needs_redraw()
}

/// `after` is `before` after `command`. Quitting and saving leave the view
/// as it is: the caller stops, or stores the text of `save`.
pub open spec fn command_done(before: View, after: View, command: EditorCommand) -> bool {
    &&& after.wf()
    &&& match command {
        EditorCommand::Move(direction) => move_done(before, after, direction),
        EditorCommand::Resize(size) => resize_done(before, after, size),
        EditorCommand::Quit => unchanged(before, after),
        EditorCommand::Insert(c) => insert_done(before, after, c),
        EditorCommand::Backspace => backspace_done(before, after),
        EditorCommand::Delete => delete_done(before, after),
        EditorCommand::Tab => tab_done(before, after),
        EditorCommand::Enter => newline_done(before, after),
        EditorCommand::Save => unchanged(before, after),
    }
}

/// Scrolling one axis to show `to` leaves it less than `extent` cells past
/// the new offset.
proof fn lemma_scroll_axis_shows(offset: usize, extent: usize, to: usize)
    requires
        extent > 0,
    ensures
        scroll_axis(offset, extent, to) <= to,
        to - scroll_axis(offset, extent, to) < extent,
{
}

/// Scrolling to show `target` in a viewport of at least one row and one
/// column puts `target` inside it.
proof fn lemma_scrolled_shows(offset: Position, size: Size, target: Position)
    requires
        size.height > 0,
        size.width > 0,
    ensures
        position_minus(target, scrolled(offset, size, target)).row < size.height,
        position_minus(target, scrolled(offset, size, target)).col < size.width,
{
    lemma_scroll_axis_shows(offset.row, size.height, target.row);
    lemma_scroll_axis_shows(offset.col, size.width, target.col);
}

/// After any cursor movement, the cursor lies inside a viewport of at least
/// one row and one column: scrolling puts it there whatever the state before.
pub proof fn lemma_move_keeps_cursor_visible(before: View, after: View, direction: Direction)
    requires
        move_done(before, after, direction),
        before.viewport().height > 0,
        before.viewport().width > 0,
    ensures
        cursor_in_view(after),
{
    lemma_scrolled_shows(
        before.offset(),
        before.viewport(),
        position_of(after.lines(), after.location()),
    );
}

/// Moving right from the end of a line that is not the last goes to the
/// start of the next line.
pub proof fn lemma_right_wraps_to_next_line(before: View, after: View)
    requires
        move_done(before, after, Direction::Right),
        before.location().line_index + 1 < before.lines().len(),
        before.location().grapheme_index == before.lines()[before.location().line_index as int].len(),
    ensures
        after.location() == (Location {
            line_index: (before.location().line_index + 1) as usize,
            grapheme_index: 0,
        }),
{
    before.buffer.lemma_height_fits();
}

/// Moving left from the start of a line other than the first goes to the end
/// of the line above.
pub proof fn lemma_left_wraps_to_previous_line(before: View, after: View)
    requires
        move_done(before, after, Direction::Left),
        before.location().line_index > 0,
        before.location().grapheme_index == 0,
    ensures
        after.location() == (Location {
            line_index: (before.location().line_index - 1) as usize,
            grapheme_index: line_len(before.lines(), before.location().line_index - 1) as usize,
        }),
{
}

} // verus!
