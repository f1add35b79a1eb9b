use zen_quill::command::{Direction, EditorCommand};
use zen_quill::cursor::Cursor;
use zen_quill::terminal::{Position, Size};
use zen_quill::unicode::{char_is_control, char_is_whitespace};
use zen_quill::Editor;

#[test]
fn position_saturating_sub() {
    let p = Position::new(5, 2).saturating_sub(Position::new(3, 4));
    assert_eq!((p.row, p.col), (2, 0));
    let q = Position::default();
    assert_eq!((q.row, q.col), (0, 0));
}

#[test]
fn size_from_columns_and_rows() {
    let size = Size::new(80, 24);
    assert_eq!((size.width, size.height), (80, 24));
}

#[test]
fn caret_stays_in_window() {
    let size = Size { height: 2, width: 3 };
    let mut cursor = Cursor::new();
    cursor.move_cursor(Direction::Up, size);
    cursor.move_cursor(Direction::Left, size);
    assert_eq!((cursor.get_row(), cursor.get_col()), (0, 0));
    for _ in 0..5 {
        cursor.move_cursor(Direction::Right, size);
        cursor.move_cursor(Direction::Down, size);
    }
    assert_eq!((cursor.get_row(), cursor.get_col()), (2, 3));
    cursor.move_cursor(Direction::Home, size);
    cursor.move_cursor(Direction::PageUp, size);
    assert_eq!((cursor.get_row(), cursor.get_col()), (0, 0));
    cursor.move_cursor(Direction::End, size);
    cursor.move_cursor(Direction::PageDown, size);
    assert_eq!((cursor.get_row(), cursor.get_col()), (2, 3));
}

#[test]
fn editor_quits_on_quit_only() {
    let mut editor = Editor::default();
    editor.evaluate_command(EditorCommand::Insert('a'));
    assert!(!editor.should_quit());
    assert_eq!(editor.view.save(), "a");
    editor.evaluate_command(EditorCommand::Quit);
    assert!(editor.should_quit());
    assert_eq!(editor.view.save(), "a");
}

#[test]
fn character_classes_agree_with_std() {
    for c in (0u32..=0x10FFFF).filter_map(char::from_u32) {
        assert_eq!(char_is_whitespace(c), c.is_whitespace(), "{:#x}", c as u32);
        assert_eq!(char_is_control(c), c.is_control(), "{:#x}", c as u32);
    }
}
