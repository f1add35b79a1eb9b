use zen_quill::buffer::Buffer;
use zen_quill::view::Location;

fn texts(buffer: &Buffer) -> Vec<String> {
    (0..buffer.height())
        .map(|i| buffer.line(i).unwrap().to_string())
        .collect()
}

fn at(line_index: usize, grapheme_index: usize) -> Location {
    Location { grapheme_index, line_index }
}

#[test]
fn load_two_lines_then_insert() {
    let mut buffer = Buffer::load("ab\ncd");
    assert_eq!(buffer.height(), 2);
    buffer.insert_char('X', at(0, 1));
    assert_eq!(texts(&buffer), vec!["aXb", "cd"]);
}

#[test]
fn delete_at_line_end_joins_lines() {
    let mut buffer = Buffer::load("ab\ncd");
    buffer.delete_char(at(0, 2));
    assert_eq!(buffer.height(), 1);
    assert_eq!(texts(&buffer), vec!["abcd"]);
}

#[test]
fn delete_inside_line_and_at_document_end() {
    let mut buffer = Buffer::load("ab\ncd");
    buffer.delete_char(at(1, 0));
    assert_eq!(texts(&buffer), vec!["ab", "d"]);
    buffer.delete_char(at(1, 1));
    assert_eq!(texts(&buffer), vec!["ab", "d"]);
    buffer.delete_char(at(5, 0));
    assert_eq!(texts(&buffer), vec!["ab", "d"]);
}

#[test]
fn load_line_boundaries() {
    assert_eq!(Buffer::load("").height(), 0);
    assert_eq!(texts(&Buffer::load("a\n")), vec!["a"]);
    assert_eq!(texts(&Buffer::load("a\n\nb")), vec!["a", "", "b"]);
    assert_eq!(texts(&Buffer::load("a\r\nb\r\n")), vec!["a", "b"]);
    assert_eq!(texts(&Buffer::load("a\rb\r")), vec!["a\rb\r"]);
    assert_eq!(texts(&Buffer::load("\n\n")), vec!["", ""]);
    assert_eq!(texts(&Buffer::load("x\r\r\ny")), vec!["x\r", "y"]);
}

#[test]
fn insert_past_last_line() {
    let mut buffer = Buffer::load("ab");
    buffer.insert_char('z', at(1, 7));
    assert_eq!(texts(&buffer), vec!["ab", "z"]);
    buffer.insert_char('q', at(5, 0));
    assert_eq!(texts(&buffer), vec!["ab", "z"]);
}

#[test]
fn newline_splits_line() {
    let mut buffer = Buffer::load("hello\nworld");
    buffer.insert_newline(at(0, 2));
    assert_eq!(texts(&buffer), vec!["he", "llo", "world"]);
    buffer.insert_newline(at(2, 5));
    assert_eq!(texts(&buffer), vec!["he", "llo", "world", ""]);
    buffer.insert_newline(at(4, 0));
    assert_eq!(buffer.height(), 5);
    buffer.insert_newline(at(9, 0));
    assert_eq!(buffer.height(), 5);
}

#[test]
fn save_joins_with_line_feeds() {
    let buffer = Buffer::load("one\r\ntwo\n\nthree\n");
    assert_eq!(buffer.save(), "one\ntwo\n\nthree");
    assert_eq!(Buffer::load("").save(), "");
    assert_eq!(Buffer::load("single").save(), "single");
}

#[test]
fn line_lookup_out_of_range() {
    let buffer = Buffer::load("a");
    assert!(buffer.line(0).is_some());
    assert!(buffer.line(1).is_none());
}
