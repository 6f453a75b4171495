use modal_editor::buffer::{split_lines, Buffer, FileError};
use modal_editor::line::Line;
use modal_editor::position::{Coords, Location};
use modal_editor::selection::Selection;

fn texts(buffer: &Buffer) -> Vec<String> {
    (0..buffer.height()).map(|i| buffer.line(i).to_text()).collect()
}

fn at(line_index: usize, grapheme_index: usize) -> Location {
    Location { line_index, grapheme_index }
}

#[test]
fn line_splits_into_grapheme_clusters() {
    let line = Line::from("e\u{301}x\u{1F600}");
    assert_eq!(line.grapheme_count(), 3);
    assert_eq!(line.to_text(), "e\u{301}x\u{1F600}");
    assert_eq!(line.text_between(0, 1), "e\u{301}");
    assert_eq!(line.text_between(1, 9), "x\u{1F600}");
}

#[test]
fn width_until_counts_wide_glyphs_twice() {
    let line = Line::from("a中b\u{301}");
    assert_eq!(line.width_until(0), 0);
    assert_eq!(line.width_until(1), 1);
    assert_eq!(line.width_until(2), 3);
    assert_eq!(line.width_until(3), 4);
    assert_eq!(line.width_until(99), 4);
}

#[test]
fn visible_graphemes_leave_out_straddling_glyphs() {
    let line = Line::from("a中bc");
    assert_eq!(line.get_visible_graphemes(0, 5), "a中bc");
    assert_eq!(line.get_visible_graphemes(0, 2), "a");
    assert_eq!(line.get_visible_graphemes(2, 5), "bc");
    assert_eq!(line.get_visible_graphemes(1, 3), "中");
    assert_eq!(line.get_visible_graphemes(4, 4), "");
    assert_eq!(line.visible_slice(0, 5, 1, 3), "中b");
}

#[test]
fn line_insert_delete_split_append() {
    let mut line = Line::from("ac");
    line.insert_char('b', 1);
    assert_eq!(line.to_text(), "abc");
    line.insert_char('d', 10);
    assert_eq!(line.to_text(), "abcd");
    line.delete(0);
    assert_eq!(line.to_text(), "bcd");
    line.delete(7);
    assert_eq!(line.to_text(), "bcd");
    let tail = line.split(1);
    assert_eq!(line.to_text(), "b");
    assert_eq!(tail.to_text(), "cd");
    line.append(&tail);
    assert_eq!(line.to_text(), "bcd");
    let rest = line.split(9);
    assert_eq!(rest.grapheme_count(), 0);
}

#[test]
fn split_lines_follows_newlines() {
    assert_eq!(split_lines("a\nb"), vec!["a", "b"]);
    assert_eq!(split_lines("a\nb\n"), vec!["a", "b"]);
    assert_eq!(split_lines("a\n\nb"), vec!["a", "", "b"]);
    assert_eq!(split_lines(""), Vec::<String>::new());
    assert_eq!(split_lines("\n"), vec![""]);
    assert_eq!(split_lines("a\r\nb"), vec!["a\r", "b"]);
}

#[test]
fn load_then_save_reproduces_lines() {
    let buffer = Buffer::load("f.txt", "one\n\nthree\n");
    assert_eq!(texts(&buffer), vec!["one", "", "three"]);
    assert_eq!(buffer.contents(), "one\n\nthree\n");
    let again = Buffer::load("f.txt", buffer.contents().as_str());
    assert_eq!(texts(&again), texts(&buffer));
    assert_eq!(buffer.get_filename().as_str(), "f.txt");
    assert!(!buffer.dirty());
}

#[test]
fn default_buffer_is_empty_and_named() {
    let buffer = Buffer::default();
    assert!(buffer.is_empty());
    assert_eq!(buffer.height(), 0);
    assert_eq!(buffer.get_filename().as_str(), "default.txt");
    assert_eq!(buffer.contents(), "");
}

#[test]
fn save_failure_keeps_dirty_flag() {
    let mut buffer = Buffer::load("f.txt", "a");
    buffer.insert_char('b', at(0, 1));
    assert!(buffer.dirty());
    assert_eq!(buffer.save(Err(FileError::PermissionDenied)), Err(FileError::PermissionDenied));
    assert!(buffer.dirty());
    assert_eq!(buffer.save(Err(FileError::NotFound)), Err(FileError::NotFound));
    assert_eq!(buffer.save(Err(FileError::Other)), Err(FileError::Other));
    assert!(buffer.dirty());
    assert_eq!(buffer.save(Ok(())), Ok(()));
    assert!(!buffer.dirty());
}

#[test]
fn buffer_insert_char_appends_line_past_end() {
    let mut buffer = Buffer::load("f.txt", "a");
    buffer.insert_char('x', at(1, 0));
    assert_eq!(texts(&buffer), vec!["a", "x"]);
    buffer.insert_char('y', at(5, 0));
    assert_eq!(texts(&buffer), vec!["a", "x"]);
    buffer.insert_char('z', at(0, 0));
    assert_eq!(texts(&buffer), vec!["za", "x"]);
}

#[test]
fn buffer_out_of_range_edits_do_nothing() {
    let mut buffer = Buffer::load("f.txt", "ab");
    buffer.delete(at(3, 0));
    buffer.delete(at(0, 2));
    buffer.insert_line(at(4, 0));
    assert_eq!(texts(&buffer), vec!["ab"]);
    assert!(!buffer.dirty());
}

#[test]
fn buffer_delete_and_insert_line() {
    let mut buffer = Buffer::load("f.txt", "abc\nde");
    buffer.delete(at(0, 1));
    assert_eq!(texts(&buffer), vec!["ac", "de"]);
    buffer.delete(at(0, 2));
    assert_eq!(texts(&buffer), vec!["acde"]);
    buffer.insert_line(at(0, 2));
    assert_eq!(texts(&buffer), vec!["ac", "de"]);
    buffer.insert_line(at(2, 0));
    assert_eq!(texts(&buffer), vec!["ac", "de", ""]);
    assert!(buffer.dirty());
}

#[test]
fn buffer_delete_range_within_and_across_lines() {
    let mut buffer = Buffer::load("f.txt", "abcdef");
    buffer.delete_range(at(0, 1), at(0, 4));
    assert_eq!(texts(&buffer), vec!["aef"]);
    let mut buffer = Buffer::load("f.txt", "abc\ndef\nghi\njkl");
    buffer.delete_range(at(0, 2), at(2, 1));
    assert_eq!(texts(&buffer), vec!["abhi", "jkl"]);
    let mut buffer = Buffer::load("f.txt", "abc\ndef");
    buffer.delete_range(at(0, 1), at(2, 0));
    assert_eq!(texts(&buffer), vec!["a"]);
}

#[test]
fn buffer_paste_multi_line() {
    let mut buffer = Buffer::load("f.txt", "abcd");
    let pieces = split_lines("1\n2\n3");
    buffer.paste(at(0, 2), &pieces);
    assert_eq!(texts(&buffer), vec!["ab1", "2", "3cd"]);
    let mut buffer = Buffer::load("f.txt", "ab");
    buffer.paste(at(1, 0), &split_lines("x"));
    assert_eq!(texts(&buffer), vec!["ab", "x"]);
}

#[test]
fn buffer_indent_skips_missing_lines() {
    let mut buffer = Buffer::load("f.txt", "a\nb");
    buffer.indent(1, 7);
    assert_eq!(texts(&buffer), vec!["a", "  b"]);
    buffer.indent(5, 7);
    assert_eq!(texts(&buffer), vec!["a", "  b"]);
}

#[test]
fn selection_range_is_ordered() {
    let mut selection = Selection::default();
    assert_eq!(selection.normalized_range(at(0, 0)), None);
    selection.start_selection(at(2, 3));
    assert_eq!(selection.normalized_range(at(1, 5)), Some((at(1, 5), at(2, 3))));
    assert_eq!(selection.normalized_range(at(2, 4)), Some((at(2, 3), at(2, 4))));
    assert_eq!(selection.normalized_range(at(2, 3)), Some((at(2, 3), at(2, 3))));
    selection.exit();
    assert!(!selection.active);
    assert_eq!(selection.normalized_range(at(0, 0)), None);
}

#[test]
fn selection_contains_is_end_exclusive() {
    let mut selection = Selection::default();
    selection.start_selection(at(0, 1));
    assert!(selection.contains(at(1, 2), 0, 1));
    assert!(selection.contains(at(1, 2), 0, 9));
    assert!(selection.contains(at(1, 2), 1, 1));
    assert!(!selection.contains(at(1, 2), 1, 2));
    assert!(!selection.contains(at(1, 2), 0, 0));
    assert!(!selection.contains(at(0, 1), 0, 1));
}

#[test]
fn selection_text_joins_lines() {
    let buffer = Buffer::load("f.txt", "abc\ndef\nghi");
    let mut selection = Selection::default();
    selection.start_selection(at(2, 1));
    assert_eq!(selection.extract_text(at(0, 2), &buffer), Some(String::from("c\ndef\ng")));
    assert_eq!(selection.extract_text(at(3, 0), &buffer), Some(String::from("hi\n")));
    selection.exit();
    assert_eq!(selection.extract_text(at(0, 0), &buffer), None);
}

#[test]
fn coords_subtract_saturating() {
    let a = Coords { row: 5, col: 1 };
    let b = Coords { row: 2, col: 3 };
    let d = a.saturating_sub(b);
    assert_eq!((d.row, d.col), (3, 0));
}

#[test]
fn buffer_delete_line_clamps_range() {
    let mut buffer = Buffer::load("f.txt", "abcdef\ngh");
    buffer.delete_line(0, 1, 3);
    assert_eq!(texts(&buffer), vec!["adef", "gh"]);
    assert!(buffer.dirty());
    let mut buffer = Buffer::load("f.txt", "abcdef\ngh");
    buffer.delete_line(1, 1, 50);
    assert_eq!(texts(&buffer), vec!["abcdef", "g"]);
    let mut buffer = Buffer::load("f.txt", "abcdef\ngh");
    buffer.delete_line(0, 4, 2);
    buffer.delete_line(5, 0, 1);
    assert_eq!(texts(&buffer), vec!["abcdef", "gh"]);
    assert!(!buffer.dirty());
}

#[test]
fn buffer_range_and_paste_outside_document_do_nothing() {
    let mut buffer = Buffer::load("f.txt", "abc\nde");
    buffer.delete_range(at(1, 0), at(0, 1));
    buffer.delete_range(at(0, 1), at(5, 0));
    buffer.delete_range(at(0, 9), at(1, 0));
    buffer.paste(at(0, 9), &split_lines("x"));
    buffer.paste(at(3, 0), &split_lines("x"));
    buffer.paste(at(0, 1), &split_lines(""));
    assert_eq!(texts(&buffer), vec!["abc", "de"]);
    assert!(!buffer.dirty());
    assert!(buffer.is_valid_location(at(2, 0)));
    assert!(!buffer.is_valid_location(at(1, 3)));
}
