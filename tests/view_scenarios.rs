use modal_editor::editorcommand::{Direction, EditorCommand};
use modal_editor::position::{Location, Size};
use modal_editor::view::{Action, Bmode, View};

fn view_with(text: &str, width: usize, height: usize) -> View {
    let mut view = View::new(Size { width, height });
    view.load("t.txt", text);
    view
}

fn lines(view: &View) -> Vec<String> {
    let buffer = view.buffer();
    (0..buffer.height()).map(|i| buffer.line(i).to_text()).collect()
}

fn key(view: &mut View, c: char) -> Action {
    view.handle_command(EditorCommand::Key(c))
}

#[test]
fn insert_then_save_writes_text_with_trailing_newline() {
    let mut view = view_with("", 80, 24);
    assert_eq!(key(&mut view, 'i'), Action::Continue);
    key(&mut view, 'h');
    key(&mut view, 'i');
    assert_eq!(view.handle_command(EditorCommand::Escape), Action::Continue);
    assert_eq!(key(&mut view, 's'), Action::Save);
    assert_eq!(view.filename().as_str(), "t.txt");
    assert_eq!(view.file_contents(), "hi\n");
    assert!(view.buffer().dirty());
    assert_eq!(view.save(Ok(())), Ok(()));
    assert!(!view.buffer().dirty());
}

#[test]
fn enter_at_end_of_line_opens_empty_line() {
    let mut view = view_with("abc\nde\n", 80, 24);
    for _ in 0..3 {
        key(&mut view, 'l');
    }
    assert_eq!(view.text_location(), Location { line_index: 0, grapheme_index: 3 });
    key(&mut view, 'i');
    view.handle_command(EditorCommand::Enter);
    assert_eq!(lines(&view), vec!["abc", "", "de"]);
    assert_eq!(view.text_location(), Location { line_index: 1, grapheme_index: 0 });
}

#[test]
fn visual_yank_copies_selection() {
    let mut view = view_with("abcdef", 80, 24);
    key(&mut view, 'v');
    assert_eq!(view.mode(), Bmode::Visual);
    for _ in 0..3 {
        view.handle_command(EditorCommand::Move(Direction::Right));
    }
    assert_eq!(view.text_location(), Location { line_index: 0, grapheme_index: 3 });
    key(&mut view, 'y');
    assert_eq!(view.clipboard().as_str(), "abc");
    assert!(!view.selection().active);
    assert_eq!(view.mode(), Bmode::Normal);
    assert_eq!(lines(&view), vec!["abcdef"]);
    assert_eq!(view.selection().anchor, Location { line_index: 0, grapheme_index: 0 });
}

#[test]
fn backspace_at_line_start_joins_lines() {
    let mut view = view_with("ab\ncd", 80, 24);
    key(&mut view, 'j');
    assert_eq!(view.text_location(), Location { line_index: 1, grapheme_index: 0 });
    key(&mut view, 'X');
    assert_eq!(lines(&view), vec!["abcd"]);
    assert_eq!(view.text_location(), Location { line_index: 0, grapheme_index: 2 });
}

#[test]
fn center_near_top_saturates_at_zero() {
    let mut view = view_with("a\nb\nc", 80, 10);
    key(&mut view, 'k');
    assert_eq!(view.text_location().line_index, 0);
    key(&mut view, 'z');
    assert_eq!(view.scroll_offset().row, 0);
}

#[test]
fn center_far_down_puts_cursor_mid_screen() {
    let text: String = (0..30).map(|i| format!("{i}\n")).collect();
    let mut view = view_with(&text, 80, 10);
    for _ in 0..20 {
        key(&mut view, 'j');
    }
    key(&mut view, 'z');
    assert_eq!(view.scroll_offset().row, 15);
}

#[test]
fn backspace_at_document_start_does_nothing() {
    let mut view = view_with("ab", 80, 24);
    key(&mut view, 'X');
    assert_eq!(lines(&view), vec!["ab"]);
    assert_eq!(view.text_location(), Location { line_index: 0, grapheme_index: 0 });
    assert!(!view.buffer().dirty());
}

#[test]
fn escape_in_normal_mode_changes_nothing() {
    let mut view = view_with("ab\ncd", 80, 24);
    key(&mut view, 'l');
    let before = (lines(&view), view.text_location(), view.mode());
    assert_eq!(view.handle_command(EditorCommand::Escape), Action::Continue);
    assert_eq!((lines(&view), view.text_location(), view.mode()), before);
}

#[test]
fn vertical_moves_snap_to_shorter_lines() {
    let mut view = view_with("abcdef\nab\nabcd", 80, 24);
    view.handle_command(EditorCommand::Move(Direction::End));
    assert_eq!(view.text_location(), Location { line_index: 0, grapheme_index: 6 });
    key(&mut view, 'j');
    assert_eq!(view.text_location(), Location { line_index: 1, grapheme_index: 2 });
    key(&mut view, 'j');
    assert_eq!(view.text_location(), Location { line_index: 2, grapheme_index: 2 });
    key(&mut view, 'j');
    assert_eq!(view.text_location(), Location { line_index: 3, grapheme_index: 0 });
    key(&mut view, 'j');
    assert_eq!(view.text_location(), Location { line_index: 3, grapheme_index: 0 });
}

#[test]
fn horizontal_moves_stop_at_line_ends() {
    let mut view = view_with("ab\ncd", 80, 24);
    key(&mut view, 'h');
    assert_eq!(view.text_location(), Location { line_index: 0, grapheme_index: 0 });
    for _ in 0..5 {
        key(&mut view, 'l');
    }
    assert_eq!(view.text_location(), Location { line_index: 0, grapheme_index: 2 });
}

#[test]
fn viewport_follows_cursor_down_and_right() {
    let text: String = (0..20).map(|_| "0123456789abcdefghij\n").collect();
    let mut view = view_with(&text, 5, 4);
    for _ in 0..10 {
        key(&mut view, 'j');
    }
    assert_eq!(view.scroll_offset().row, 7);
    for _ in 0..12 {
        key(&mut view, 'l');
    }
    assert_eq!(view.scroll_offset().col, 8);
    for _ in 0..10 {
        key(&mut view, 'k');
    }
    assert_eq!(view.scroll_offset().row, 0);
    let caret = view.caret_position();
    assert_eq!((caret.row, caret.col), (0, 4));
}

#[test]
fn resize_brings_cursor_back_into_view() {
    let text: String = (0..20).map(|_| "x\n").collect();
    let mut view = view_with(&text, 10, 20);
    for _ in 0..15 {
        key(&mut view, 'j');
    }
    assert_eq!(view.scroll_offset().row, 0);
    view.handle_command(EditorCommand::Resize(Size { width: 10, height: 5 }));
    assert_eq!(view.scroll_offset().row, 11);
    assert_eq!(view.size(), Size { width: 10, height: 5 });
}

#[test]
fn replace_mode_overwrites() {
    let mut view = view_with("abc", 80, 24);
    key(&mut view, 'r');
    assert_eq!(view.mode(), Bmode::Replace);
    key(&mut view, 'x');
    key(&mut view, 'y');
    view.handle_command(EditorCommand::Escape);
    assert_eq!(lines(&view), vec!["xyc"]);
    assert_eq!(view.mode(), Bmode::Normal);
}

#[test]
fn tab_inserts_two_spaces() {
    let mut view = view_with("ab", 80, 24);
    key(&mut view, 'i');
    view.handle_command(EditorCommand::Tab);
    assert_eq!(lines(&view), vec!["  ab"]);
    assert_eq!(view.text_location().grapheme_index, 2);
}

#[test]
fn delete_at_line_end_joins_next_line() {
    let mut view = view_with("ab\ncd", 80, 24);
    view.handle_command(EditorCommand::Move(Direction::End));
    key(&mut view, 'x');
    assert_eq!(lines(&view), vec!["abcd"]);
    view.handle_command(EditorCommand::Move(Direction::End));
    key(&mut view, 'x');
    assert_eq!(lines(&view), vec!["abcd"]);
}

#[test]
fn cut_across_lines_and_paste_back() {
    let mut view = view_with("abc\ndef\nghi", 80, 24);
    key(&mut view, 'l');
    key(&mut view, 'v');
    key(&mut view, 'j');
    key(&mut view, 'j');
    key(&mut view, 'd');
    assert_eq!(view.clipboard().as_str(), "bc\ndef\ng");
    assert_eq!(lines(&view), vec!["ahi"]);
    assert_eq!(view.text_location(), Location { line_index: 0, grapheme_index: 1 });
    assert_eq!(view.mode(), Bmode::Normal);
    key(&mut view, 'p');
    assert_eq!(lines(&view), vec!["abc", "def", "ghi"]);
    assert_eq!(view.text_location(), Location { line_index: 0, grapheme_index: 1 });
}

#[test]
fn paste_single_line_inline() {
    let mut view = view_with("abcd", 80, 24);
    key(&mut view, 'v');
    key(&mut view, 'l');
    key(&mut view, 'y');
    view.handle_command(EditorCommand::Move(Direction::End));
    key(&mut view, 'p');
    assert_eq!(lines(&view), vec!["abcda"]);
}

#[test]
fn open_line_below_and_above() {
    let mut view = view_with("ab\ncd", 80, 24);
    key(&mut view, 'o');
    assert_eq!(view.mode(), Bmode::Insert);
    assert_eq!(lines(&view), vec!["ab", "", "cd"]);
    assert_eq!(view.text_location(), Location { line_index: 1, grapheme_index: 0 });
    view.handle_command(EditorCommand::Escape);
    key(&mut view, 'j');
    key(&mut view, 'O');
    assert_eq!(lines(&view), vec!["ab", "", "", "cd"]);
    assert_eq!(view.text_location(), Location { line_index: 2, grapheme_index: 0 });
}

#[test]
fn indent_keeps_cursor_place() {
    let mut view = view_with("ab\ncd", 80, 24);
    key(&mut view, 'l');
    key(&mut view, '>');
    assert_eq!(lines(&view), vec!["  ab", "cd"]);
    assert_eq!(view.text_location(), Location { line_index: 0, grapheme_index: 1 });
}

#[test]
fn indent_selection_covers_every_line() {
    let mut view = view_with("a\nb\nc", 80, 24);
    key(&mut view, 'j');
    key(&mut view, 'v');
    key(&mut view, 'j');
    key(&mut view, '>');
    assert_eq!(lines(&view), vec!["a", "  b", "  c"]);
    assert_eq!(view.mode(), Bmode::Normal);
    assert!(!view.selection().active);
    assert_eq!(view.selection().anchor, Location { line_index: 0, grapheme_index: 0 });
}

#[test]
fn quit_only_on_q_in_normal_mode() {
    let mut view = view_with("", 80, 24);
    key(&mut view, 'i');
    assert_eq!(key(&mut view, 'q'), Action::Continue);
    assert_eq!(lines(&view), vec!["q"]);
    view.handle_command(EditorCommand::Escape);
    assert_eq!(key(&mut view, 'q'), Action::Quit);
    assert_eq!(view.handle_command(EditorCommand::Quit), Action::Continue);
}

#[test]
fn unmapped_key_in_normal_mode_is_ignored() {
    let mut view = view_with("ab", 80, 24);
    key(&mut view, '#');
    assert_eq!(lines(&view), vec!["ab"]);
    assert_eq!(view.mode(), Bmode::Normal);
    assert!(!view.buffer().dirty());
}

#[test]
fn typing_past_last_line_adds_a_line() {
    let mut view = view_with("ab", 80, 24);
    key(&mut view, 'j');
    assert_eq!(view.text_location(), Location { line_index: 1, grapheme_index: 0 });
    key(&mut view, 'i');
    key(&mut view, 'z');
    assert_eq!(lines(&view), vec!["ab", "z"]);
    assert_eq!(view.text_location(), Location { line_index: 1, grapheme_index: 1 });
}

#[test]
fn combining_mark_joins_previous_grapheme() {
    let mut view = view_with("e", 80, 24);
    key(&mut view, 'l');
    key(&mut view, 'i');
    key(&mut view, '\u{301}');
    assert_eq!(view.buffer().line(0).grapheme_count(), 1);
    assert_eq!(view.text_location(), Location { line_index: 0, grapheme_index: 1 });
    assert_eq!(lines(&view), vec!["e\u{301}"]);
}

#[test]
fn wide_glyph_moves_caret_two_columns() {
    let mut view = view_with("中a", 80, 24);
    key(&mut view, 'l');
    assert_eq!(view.text_location_to_position().col, 2);
    key(&mut view, 'l');
    assert_eq!(view.text_location_to_position().col, 3);
}

#[test]
fn center_leaves_column_offset_alone() {
    let mut view = view_with("abcdefghijklmnop", 5, 4);
    for _ in 0..12 {
        key(&mut view, 'l');
    }
    assert_eq!(view.scroll_offset().col, 8);
    view.load("t.txt", "ab");
    assert_eq!(view.text_location(), Location { line_index: 0, grapheme_index: 2 });
    key(&mut view, 'z');
    assert_eq!(view.scroll_offset().col, 8);
    assert_eq!(view.scroll_offset().row, 0);
    key(&mut view, 'h');
    assert_eq!(view.scroll_offset().col, 1);
}

#[test]
fn public_moves_and_resize_follow_cursor() {
    let text: String = (0..20).map(|_| "x\n").collect();
    let mut view = view_with(&text, 10, 3);
    view.move_down(5);
    assert_eq!(view.text_location(), Location { line_index: 5, grapheme_index: 0 });
    assert_eq!(view.scroll_offset().row, 0);
    view.move_text_location(Direction::Down);
    assert_eq!(view.scroll_offset().row, 4);
    view.move_up(50);
    assert_eq!(view.text_location(), Location { line_index: 0, grapheme_index: 0 });
    view.move_down(8);
    view.resize(Size { width: 10, height: 2 });
    assert_eq!(view.scroll_offset().row, 7);
    assert_eq!(view.process_selection(), None);
    key(&mut view, 'v');
    key(&mut view, 'k');
    assert_eq!(
        view.process_selection(),
        Some((Location { line_index: 7, grapheme_index: 0 }, Location { line_index: 8, grapheme_index: 0 }))
    );
}
