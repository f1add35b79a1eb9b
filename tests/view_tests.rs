use zen_quill::command::{Direction, EditorCommand};
use zen_quill::terminal::{Position, Size};
use zen_quill::view::View;

fn view_of(text: &str, height: usize, width: usize) -> View {
    let mut view = View::default();
    view.load(text);
    view.resize(Size { height, width });
    view
}

fn go(view: &mut View, direction: Direction) -> Position {
    view.move_text_location(&direction);
    view.text_location_to_position()
}

fn rc(p: Position) -> (usize, usize) {
    (p.row, p.col)
}

#[test]
fn right_from_line_end_wraps_to_next_line() {
    let mut view = view_of("ab\ncd", 10, 10);
    assert_eq!(rc(go(&mut view, Direction::End)), (0, 2));
    assert_eq!(rc(go(&mut view, Direction::Right)), (1, 0));
}

#[test]
fn left_from_line_start_wraps_to_previous_end() {
    let mut view = view_of("abc\nd", 10, 10);
    go(&mut view, Direction::Down);
    assert_eq!(rc(go(&mut view, Direction::Left)), (0, 3));
}

#[test]
fn moves_stop_at_document_corners() {
    let mut view = view_of("ab", 10, 10);
    assert_eq!(rc(go(&mut view, Direction::Left)), (0, 0));
    assert_eq!(rc(go(&mut view, Direction::Up)), (0, 0));
    assert_eq!(rc(go(&mut view, Direction::End)), (0, 2));
    // the end of the last line: there is no next line, so the cursor stays
    assert_eq!(rc(go(&mut view, Direction::Right)), (0, 2));
    assert_eq!(rc(go(&mut view, Direction::Right)), (0, 2));
    assert_eq!(rc(go(&mut view, Direction::Down)), (1, 0));
    assert_eq!(rc(go(&mut view, Direction::Right)), (1, 0));
}

#[test]
fn vertical_moves_snap_to_line_length() {
    let mut view = view_of("abcd\nx\nlonger", 10, 10);
    go(&mut view, Direction::End);
    assert_eq!(rc(go(&mut view, Direction::Down)), (1, 1));
    assert_eq!(rc(go(&mut view, Direction::Down)), (2, 1));
    assert_eq!(rc(go(&mut view, Direction::Down)), (3, 0));
    assert_eq!(rc(go(&mut view, Direction::Down)), (3, 0));
    assert_eq!(rc(go(&mut view, Direction::Up)), (2, 0));
    assert_eq!(rc(go(&mut view, Direction::Home)), (2, 0));
}

#[test]
fn page_moves_by_viewport_height() {
    let text = (0..10).map(|i| format!("line{i}")).collect::<Vec<_>>().join("\n");
    let mut view = view_of(&text, 3, 20);
    assert_eq!(go(&mut view, Direction::PageDown).row, 3);
    assert_eq!(go(&mut view, Direction::PageDown).row, 6);
    assert_eq!(go(&mut view, Direction::PageDown).row, 9);
    assert_eq!(go(&mut view, Direction::PageDown).row, 10);
    assert_eq!(go(&mut view, Direction::PageUp).row, 7);
    assert_eq!(go(&mut view, Direction::PageUp).row, 4);
    assert_eq!(go(&mut view, Direction::PageUp).row, 1);
    assert_eq!(go(&mut view, Direction::PageUp).row, 0);
}

#[test]
fn cursor_stays_in_viewport_while_moving() {
    let text = (0..12)
        .map(|i| "x".repeat(i * 3) + "\u{4e2d}\u{6587}")
        .collect::<Vec<_>>()
        .join("\n");
    let moves = [
        Direction::Down,
        Direction::End,
        Direction::Right,
        Direction::PageDown,
        Direction::End,
        Direction::Left,
        Direction::Up,
        Direction::Home,
        Direction::PageDown,
        Direction::End,
        Direction::Right,
        Direction::Right,
        Direction::PageUp,
        Direction::End,
        Direction::Down,
    ];
    for (height, width) in [(1, 1), (2, 3), (4, 7)] {
        let mut view = view_of(&text, height, width);
        for _ in 0..4 {
            for direction in moves {
                view.move_text_location(&direction);
                let p = view.cursor_position();
                assert!(p.row < height && p.col < width, "{height}x{width}: {:?}", rc(p));
            }
        }
    }
}

#[test]
fn horizontal_scroll_makes_cursor_last_column() {
    let mut view = view_of(&"a".repeat(20), 3, 5);
    go(&mut view, Direction::End);
    assert_eq!(rc(view.cursor_position()), (0, 4));
    go(&mut view, Direction::Home);
    assert_eq!(rc(view.cursor_position()), (0, 0));
}

#[test]
fn vertical_scroll_follows_cursor() {
    let text = (0..10).map(|i| i.to_string()).collect::<Vec<_>>().join("\n");
    let mut view = view_of(&text, 3, 5);
    for _ in 0..5 {
        go(&mut view, Direction::Down);
    }
    assert_eq!(rc(view.cursor_position()), (2, 0));
    for _ in 0..4 {
        go(&mut view, Direction::Up);
    }
    assert_eq!(rc(view.cursor_position()), (0, 0));
    let rows = view.render().unwrap();
    assert_eq!(rows, vec!["1", "2", "3"]);
}

#[test]
fn render_only_when_due() {
    let mut view = view_of("abc\n\u{4e2d}z", 3, 2);
    let rows = view.render().unwrap();
    assert_eq!(rows, vec!["ab", "\u{4e2d}", "~"]);
    assert!(view.render().is_none());
    view.resize(Size { height: 1, width: 1 });
    assert_eq!(view.render().unwrap(), vec!["a"]);
}

#[test]
fn resize_scrolls_cursor_back_into_view() {
    let mut view = view_of("abcdef\nx\ny", 10, 10);
    go(&mut view, Direction::End);
    view.resize(Size { height: 1, width: 3 });
    assert_eq!(rc(view.cursor_position()), (0, 2));
    assert_eq!(view.render().unwrap(), vec!["ef"]);
}

#[test]
fn typing_advances_cursor() {
    let mut view = view_of("ab", 5, 10);
    view.insert_character('X');
    assert_eq!(view.save(), "Xab");
    assert_eq!(rc(view.text_location_to_position()), (0, 1));
    view.handle_command(EditorCommand::Insert('Y'));
    assert_eq!(view.save(), "XYab");
    assert_eq!(rc(view.text_location_to_position()), (0, 2));
}

#[test]
fn typing_a_combining_mark_keeps_cursor() {
    let mut view = view_of("e", 5, 10);
    go(&mut view, Direction::End);
    view.insert_character('\u{301}');
    assert_eq!(view.save(), "e\u{301}");
    assert_eq!(rc(view.text_location_to_position()), (0, 1));
}

#[test]
fn typing_below_last_line_adds_line() {
    let mut view = view_of("ab", 5, 10);
    go(&mut view, Direction::Down);
    view.insert_character('z');
    assert_eq!(view.save(), "ab\nz");
    assert_eq!(rc(view.text_location_to_position()), (1, 1));
}

#[test]
fn backspace_deletes_behind_cursor() {
    let mut view = view_of("abc\nde", 5, 10);
    view.backspace();
    assert_eq!(view.save(), "abc\nde");
    go(&mut view, Direction::Right);
    go(&mut view, Direction::Right);
    view.backspace();
    assert_eq!(view.save(), "ac\nde");
    assert_eq!(rc(view.text_location_to_position()), (0, 1));
    go(&mut view, Direction::Down);
    go(&mut view, Direction::Home);
    view.handle_command(EditorCommand::Backspace);
    assert_eq!(view.save(), "acde");
    assert_eq!(rc(view.text_location_to_position()), (0, 2));
}

#[test]
fn delete_forward_at_cursor() {
    let mut view = view_of("ab\ncd", 5, 10);
    view.delete();
    assert_eq!(view.save(), "b\ncd");
    go(&mut view, Direction::End);
    view.handle_command(EditorCommand::Delete);
    assert_eq!(view.save(), "bcd");
}

#[test]
fn tab_types_four_spaces() {
    let mut view = view_of("ab", 5, 10);
    go(&mut view, Direction::Right);
    view.insert_tab();
    assert_eq!(view.save(), "a    b");
    assert_eq!(rc(view.text_location_to_position()), (0, 5));
}

#[test]
fn tab_scrolls_cursor_into_view() {
    let mut view = view_of("ab", 3, 3);
    go(&mut view, Direction::End);
    view.insert_tab();
    assert_eq!(view.save(), "ab    ");
    assert_eq!(rc(view.text_location_to_position()), (0, 6));
    assert_eq!(rc(view.cursor_position()), (0, 2));
    assert_eq!(view.render().unwrap(), vec!["  ", "~", "~"]);
}

#[test]
fn enter_splits_line_and_moves_down() {
    let mut view = view_of("abcd", 5, 10);
    go(&mut view, Direction::Right);
    go(&mut view, Direction::Right);
    view.handle_command(EditorCommand::Enter);
    assert_eq!(view.save(), "ab\ncd");
    assert_eq!(rc(view.text_location_to_position()), (1, 0));
    go(&mut view, Direction::End);
    view.insert_newline();
    assert_eq!(view.save(), "ab\ncd\n");
    assert_eq!(rc(view.text_location_to_position()), (2, 0));
}

#[test]
fn quit_and_save_leave_view_alone() {
    let mut view = view_of("ab", 5, 10);
    view.render();
    view.handle_command(EditorCommand::Quit);
    view.handle_command(EditorCommand::Save);
    assert_eq!(view.save(), "ab");
    assert!(view.render().is_none());
    view.handle_command(EditorCommand::Resize(Size { height: 2, width: 2 }));
    assert!(view.render().is_some());
}

#[test]
fn cursor_column_counts_wide_graphemes() {
    let mut view = view_of("\u{4e2d}a", 5, 10);
    assert_eq!(go(&mut view, Direction::Right).col, 2);
    assert_eq!(go(&mut view, Direction::Right).col, 3);
}
