use modal_editor::editor::{DocumentStatus, Editor};
use modal_editor::editorcommand::{Direction, EditorCommand, Event, KeyCode, KeyEvent};
use modal_editor::position::{Location, Size};
use modal_editor::statusbar::StatusBar;
use modal_editor::view::{Action, Bmode, View};

fn press(code: KeyCode) -> Event {
    Event::Key(KeyEvent { code, control: false, press: true })
}

#[test]
fn keys_decode_to_commands() {
    assert_eq!(EditorCommand::try_from(press(KeyCode::Char('x'))), Ok(EditorCommand::Key('x')));
    assert_eq!(
        EditorCommand::try_from(press(KeyCode::Left)),
        Ok(EditorCommand::Move(Direction::Left))
    );
    assert_eq!(
        EditorCommand::try_from(press(KeyCode::PageDown)),
        Ok(EditorCommand::Move(Direction::PageDown))
    );
    assert_eq!(EditorCommand::try_from(press(KeyCode::Esc)), Ok(EditorCommand::Escape));
    assert_eq!(EditorCommand::try_from(press(KeyCode::Enter)), Ok(EditorCommand::Enter));
    assert_eq!(EditorCommand::try_from(press(KeyCode::Tab)), Ok(EditorCommand::Tab));
    assert_eq!(EditorCommand::try_from(press(KeyCode::Backspace)), Ok(EditorCommand::Backspace));
    assert_eq!(EditorCommand::try_from(press(KeyCode::Delete)), Ok(EditorCommand::Delete));
    let ctrl_q = Event::Key(KeyEvent { code: KeyCode::Char('q'), control: true, press: true });
    assert_eq!(EditorCommand::try_from(ctrl_q), Ok(EditorCommand::Quit));
    let ctrl_x = Event::Key(KeyEvent { code: KeyCode::Char('x'), control: true, press: true });
    assert_eq!(EditorCommand::try_from(ctrl_x), Ok(EditorCommand::Other));
    assert_eq!(
        EditorCommand::try_from(Event::Resize(80, 24)),
        Ok(EditorCommand::Resize(Size { width: 80, height: 24 }))
    );
    assert!(EditorCommand::try_from(Event::Other).is_err());
}

#[test]
fn mode_names() {
    assert_eq!(Bmode::Normal.as_str(), "Normal");
    assert_eq!(Bmode::Insert.as_str(), "Insert");
    assert_eq!(Bmode::Visual.as_str(), "Visual");
    assert_eq!(Bmode::Replace.as_str(), "Replace");
}

fn status(lines: usize, current: usize, modified: bool, name: &str, mode: &str) -> DocumentStatus {
    DocumentStatus {
        total_lines: lines,
        current_line_index: current,
        is_modified: modified,
        filename: String::from(name),
        bmode_string: String::from(mode),
    }
}

#[test]
fn status_bar_lays_out_three_columns() {
    let mut bar = StatusBar::new(Size { width: 30, height: 10 });
    bar.update_status(status(12, 3, true, "a.txt", "Normal"));
    let (row, text) = bar.render().expect("a redraw is pending");
    assert_eq!(row, 9);
    assert_eq!(text, "Normal      a.txt*        4/13");
    assert_eq!(bar.render(), None);
    bar.update_status(status(12, 3, true, "a.txt", "Normal"));
    assert_eq!(bar.render(), None);
    bar.update_status(status(12, 4, false, "a.txt", "Insert"));
    assert_eq!(bar.render().map(|(_, t)| t), Some(String::from("Insert      a.txt         5/13")));
    bar.resize(Size { width: 9, height: 3 });
    assert_eq!(bar.render(), Some((2, String::from("Inserta.txt5/13"))));
}

#[test]
fn view_reports_status() {
    let mut view = View::new(Size { width: 20, height: 5 });
    view.load("s.txt", "ab\ncd\n");
    view.handle_command(EditorCommand::Key('j'));
    view.handle_command(EditorCommand::Key('x'));
    let st = view.get_status();
    assert_eq!(st, status(2, 1, true, "s.txt", "Normal"));
}

#[test]
fn render_shows_rows_tildes_and_selection() {
    let mut view = View::new(Size { width: 4, height: 3 });
    view.load("r.txt", "abcdef\nxy");
    view.handle_command(EditorCommand::Key('l'));
    view.handle_command(EditorCommand::Key('v'));
    view.handle_command(EditorCommand::Key('l'));
    view.handle_command(EditorCommand::Key('l'));
    let rows = view.render();
    assert_eq!(rows.len(), 3);
    assert_eq!((rows[0].left.as_str(), rows[0].selected.as_str(), rows[0].right.as_str()), ("a", "bc", "d"));
    assert_eq!((rows[1].left.as_str(), rows[1].selected.as_str(), rows[1].right.as_str()), ("xy", "", ""));
    assert_eq!((rows[2].left.as_str(), rows[2].row), ("~", 2));
    assert!(view.render().is_empty());
}

#[test]
fn render_empty_document_shows_welcome() {
    let mut view = View::new(Size { width: 40, height: 5 });
    let rows = view.render();
    assert_eq!(rows.len(), 5);
    assert_eq!(rows[0].left, "~");
    assert_eq!(rows[2].left, "~      modal_editor version 0.1.0");
    let mut narrow = View::new(Size { width: 10, height: 1 });
    assert_eq!(narrow.render()[0].left, "~modal_edi");
    let mut flat = View::new(Size { width: 10, height: 0 });
    assert!(flat.render().is_empty());
}

#[test]
fn editor_ignores_key_release_and_quits_on_q() {
    let mut editor = Editor::new(Size { width: 20, height: 6 });
    assert_eq!(editor.view().size(), Size { width: 20, height: 5 });
    let release = Event::Key(KeyEvent { code: KeyCode::Char('i'), control: false, press: false });
    assert_eq!(editor.evaluate_event(release), Action::Continue);
    assert_eq!(editor.view().mode(), Bmode::Normal);
    assert_eq!(editor.evaluate_event(press(KeyCode::Char('s'))), Action::Save);
    assert_eq!(editor.evaluate_event(Event::Other), Action::Continue);
    assert!(!editor.should_quit());
    assert_eq!(editor.evaluate_event(press(KeyCode::Char('q'))), Action::Quit);
    assert!(editor.should_quit());
}

#[test]
fn editor_resize_leaves_a_row_for_the_status_bar() {
    let mut editor = Editor::new(Size { width: 20, height: 6 });
    editor.load("e.txt", "a\nb\nc\nd\ne\nf");
    editor.evaluate_event(Event::Resize(30, 3));
    assert_eq!(editor.view().size(), Size { width: 30, height: 2 });
    for _ in 0..3 {
        editor.evaluate_event(press(KeyCode::Down));
    }
    assert_eq!(editor.view().text_location(), Location { line_index: 3, grapheme_index: 0 });
    let frame = editor.refresh_screen();
    assert_eq!(frame.rows.len(), 2);
    assert_eq!(frame.rows[0].left, "c");
    assert_eq!(frame.rows[1].left, "d");
    assert_eq!((frame.caret.row, frame.caret.col), (1, 0));
    let (row, text) = frame.status.expect("the status bar is drawn");
    assert_eq!(row, 2);
    assert_eq!(text, "Normal      e.txt          4/7");
    assert!(editor.refresh_screen().status.is_none());
}
