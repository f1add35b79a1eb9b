use zen_quill::line::{GraphemeWidth, Line};

#[test]
fn line_round_trip_keeps_text() {
    for text in ["", "hello", "e\u{301}t\u{e9}", "a\r\nb", "\u{4e2d}\u{6587} mixed\ttext", "\u{1f1f7}\u{1f1fa}x"] {
        assert_eq!(Line::from(text).to_string(), text);
    }
}

#[test]
fn line_counts_clusters_not_code_points() {
    let line = Line::from("e\u{301}o\u{308}\u{332}x");
    assert_eq!(line.grapheme_count(), 3);
    assert_eq!(line.len(), 3);
    assert_eq!(Line::from("a\r\nb").grapheme_count(), 3);
    assert_eq!(Line::from("").grapheme_count(), 0);
}

#[test]
fn width_until_full_then_half() {
    let line = Line::from("\u{4e2d}a");
    assert_eq!(line.width_until(0), 0);
    assert_eq!(line.width_until(1), 2);
    assert_eq!(line.width_until(2), 3);
    assert_eq!(line.width_until(7), 3);
}

#[test]
fn width_until_never_decreases() {
    let line = Line::from("a\u{4e2d}\tb\u{200b}\u{3000}c");
    let mut last = 0;
    for i in 0..10 {
        let w = line.width_until(i);
        assert!(w >= last);
        last = w;
    }
    assert_eq!(line.width_until(7), 8);
}

#[test]
fn replaced_clusters_are_one_column() {
    // ideographic space is wide whitespace: it is replaced, so it takes one column
    let line = Line::from("\u{3000}x");
    assert_eq!(line.width_until(1), 1);
    let zero_width = Line::from("\u{200b}x");
    assert_eq!(zero_width.width_until(1), 1);
}

#[test]
fn visible_graphemes_of_plain_row() {
    let line = Line::from("abcde");
    let part = line.get_visible_graphemes(1..3);
    assert_eq!(part.chars().count(), 2);
    assert_eq!(part, "bc");
    assert_eq!(line.get_visible_graphemes(2..2), "");
    assert_eq!(line.get_visible_graphemes(3..1), "");
    assert_eq!(line.get_visible_graphemes(0..100), "abcde");
    assert_eq!(line.get_visible_graphemes(5..9), "");
}

#[test]
fn visible_graphemes_clip_wide_cluster() {
    let line = Line::from("\u{4e2d}a\u{6587}");
    assert_eq!(line.get_visible_graphemes(1..3), "\u{22ef}a");
    assert_eq!(line.get_visible_graphemes(0..1), "\u{22ef}");
    assert_eq!(line.get_visible_graphemes(0..4), "\u{4e2d}a\u{22ef}");
    assert_eq!(line.get_visible_graphemes(0..5), "\u{4e2d}a\u{6587}");
}

#[test]
fn visible_graphemes_use_stand_in_glyphs() {
    let line = Line::from("a\tb c\u{a0}d\u{200b}e\nf");
    assert_eq!(
        line.get_visible_graphemes(0..20),
        "a\tb c\u{2423}d\u{b7}e\u{25af}f"
    );
}

#[test]
fn insert_char_in_middle_and_past_end() {
    let mut line = Line::from("ab");
    line.insert_char('X', 1);
    assert_eq!(line.to_string(), "aXb");
    line.insert_char('Y', 10);
    assert_eq!(line.to_string(), "aXbY");
    line.insert_char('Z', 0);
    assert_eq!(line.to_string(), "ZaXbY");
    assert_eq!(line.grapheme_count(), 5);
}

#[test]
fn insert_combining_mark_merges_cluster() {
    let mut line = Line::from("e");
    line.insert_char('\u{301}', 1);
    assert_eq!(line.grapheme_count(), 1);
    assert_eq!(line.to_string(), "e\u{301}");
}

#[test]
fn delete_removes_one_cluster() {
    let mut line = Line::from("ae\u{301}c");
    line.delete(1);
    assert_eq!(line.to_string(), "ac");
    line.delete(5);
    assert_eq!(line.to_string(), "ac");
    line.delete(0);
    assert_eq!(line.to_string(), "c");
}

#[test]
fn delete_after_insert_restores_line() {
    for i in 0..=4 {
        let mut line = Line::from("w\u{4e2d}xy");
        line.insert_char('Q', i);
        line.delete(i);
        assert_eq!(line.to_string(), "w\u{4e2d}xy");
        assert_eq!(line.grapheme_count(), 4);
    }
}

#[test]
fn append_joins_and_resegments() {
    let mut line = Line::from("abe");
    line.append(&Line::from("\u{301}z"));
    assert_eq!(line.to_string(), "abe\u{301}z");
    assert_eq!(line.grapheme_count(), 4);
}

#[test]
fn split_keeps_left_returns_right() {
    let mut line = Line::from("hello");
    let right = line.split(2);
    assert_eq!(line.to_string(), "he");
    assert_eq!(right.to_string(), "llo");
    let empty = line.split(2);
    assert_eq!(line.to_string(), "he");
    assert_eq!(empty.grapheme_count(), 0);
    let rest = line.split(0);
    assert_eq!(line.to_string(), "");
    assert_eq!(rest.to_string(), "he");
}

#[test]
fn grapheme_width_saturates() {
    assert_eq!(GraphemeWidth::Half.saturating_add(3), 4);
    assert_eq!(GraphemeWidth::Full.saturating_add(3), 5);
    assert_eq!(GraphemeWidth::Full.saturating_add(usize::MAX - 1), usize::MAX);
}
