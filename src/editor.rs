//! The editor: a view and a status bar, fed with input events.

use crate::editorcommand::{EditorCommand, Event, KeyEvent};
use crate::buffer::FileError;
use crate::position::{sub_floor, Coords, Size};
use crate::statusbar::StatusBar;
use crate::view::{command_action, Action, RenderRow, View, ViewModel};
use vstd::prelude::*;
use vstd::view::View as _;

verus! {

/// What the status bar reports about the document.
#[derive(Debug)]
pub struct DocumentStatus {
    pub total_lines: usize,
    pub current_line_index: usize,
    pub is_modified: bool,
    pub filename: String,
    pub bmode_string: String,
}

/// Whether two statuses report the same.
pub open spec fn same_status(a: DocumentStatus, b: DocumentStatus) -> bool {
    &&& a.total_lines == b.total_lines
    &&& a.current_line_index == b.current_line_index
    &&& a.is_modified == b.is_modified
    &&& a.filename@ == b.filename@
    &&& a.bmode_string@ == b.bmode_string@
}

impl PartialEq for DocumentStatus {
    fn eq(&self, other: &DocumentStatus) -> (r: bool) {
        self.total_lines == other.total_lines && self.current_line_index
            == other.current_line_index && self.is_modified == other.is_modified
            && self.filename == other.filename && self.bmode_string == other.bmode_string
    }
}

impl vstd::std_specs::cmp::PartialEqSpecImpl for DocumentStatus {
    open spec fn obeys_eq_spec() -> bool {
        true
    }

    open spec fn eq_spec(&self, other: &DocumentStatus) -> bool {
        same_status(*self, *other)
    }
}

impl Default for DocumentStatus {
    fn default() -> (r: DocumentStatus)
        ensures
            r.total_lines == 0,
            r.current_line_index == 0,
            !r.is_modified,
            r.filename@ == Seq::<char>::empty(),
            r.bmode_string@ == Seq::<char>::empty(),
    {
        DocumentStatus {
            total_lines: 0,
            current_line_index: 0,
            is_modified: false,
            filename: String::new(),
            bmode_string: String::new(),
        }
    }
}

/// One drawing of the screen: the rows of the view, the status bar where it
/// has to be drawn, and where the caret goes.
pub struct Frame {
    pub rows: Vec<RenderRow>,
    pub status: Option<(usize, String)>,
    pub caret: Coords,
}

/// The command that the view gets for `event`: that of a key going down,
/// or a resize to all rows of the new size but the last, which the status
/// bar takes. Keys coming up and other events give none.
pub open spec fn view_command(event: Event) -> Option<EditorCommand> {
    match event {
        Event::Key(key) => if key.press {
            Some(crate::editorcommand::key_command(key))
        } else {
            None
        },
        Event::Resize(w, h) => Some(
            EditorCommand::Resize(Size { width: w as usize, height: sub_floor(h as usize, 1) }),
        ),
        Event::Other => None,
    }
}

/// The editor: a view over the document and a status bar below it.
pub struct Editor {
    should_quit: bool,
    view: View,
    statusbar: StatusBar,
}

impl Editor {
    /// The view and everything in it is well formed.
    pub closed spec fn wf(&self) -> bool {
        self.view.wf()
    }

    /// The state of the view.
    pub closed spec fn view_model(&self) -> ViewModel {
        self.view.model()
    }

    /// Whether the editor is to stop.
    pub closed spec fn quitting(&self) -> bool {
        self.should_quit
    }

    /// Whether the view has to be drawn again.
    pub closed spec fn redraw_pending(&self) -> bool {
        self.view.redraw_pending()
    }

    /// The status bar.
    pub closed spec fn status_bar(&self) -> StatusBar {
        self.statusbar
    }

    /// An editor on a screen of `size`, with an empty document: the view takes
    /// every row but the last, which holds the status bar.
    pub fn new(size: Size) -> (r: Editor)
        ensures
            r.wf(),
            !r.quitting(),
            r.view_model().lines == Seq::<Seq<Seq<char>>>::empty(),
            r.view_model().cursor == (crate::position::Location { grapheme_index: 0, line_index: 0 }),
            r.view_model().mode == crate::view::Bmode::Normal,
            r.view_model().size == (Size { width: size.width, height: sub_floor(size.height, 1) }),
            r.status_bar().row() == sub_floor(size.height, 1),
            r.status_bar().width() == size.width,
    {
        let view = View::new(Size { width: size.width, height: size.height.saturating_sub(1) });
        Editor { should_quit: false, view, statusbar: StatusBar::new(size) }
    }

    /// Takes on the document read from the file `filename`, whose contents
    /// are `text`.
    pub fn load(&mut self, filename: &str, text: &str)
        requires
            old(self).wf(),
        ensures
            final(self).wf(),
            final(self).view_model() == old(self).view_model().loaded(filename@, text@),
            final(self).quitting() == old(self).quitting(),
            final(self).status_bar() == old(self).status_bar(),
    {
        self.view.load(filename, text);
    }

    /// Feeds an input event to the view: the result says whether to save or
    /// to stop, and a stop is remembered.
    pub fn evaluate_event(&mut self, event: Event) -> (r: Action)
        requires
            old(self).wf(),
        ensures
            final(self).wf(),
            match view_command(event) {
                Some(command) => {
                    &&& final(self).view_model() == old(self).view_model().after_command(command)
                    &&& r == command_action(old(self).view_model().mode, command)
                },
                None => {
                    &&& final(self).view_model() == old(self).view_model()
                    &&& r == Action::Continue
                },
            },
            final(self).quitting() == (old(self).quitting() || r == Action::Quit),
    {
        let command = match EditorCommand::try_from(event) {
            Ok(command) => command,
            Err(_) => {
                return Action::Continue;
            },
        };
        let command = match command {
            EditorCommand::Resize(size) => {
                self.statusbar.resize(size);
                EditorCommand::Resize(
                    Size { width: size.width, height: size.height.saturating_sub(1) },
                )
            },
            _ => {
                if let Event::Key(key) = event {
                    if !key.press {
                        return Action::Continue;
                    }
                }
                command
            },
        };
        let action = self.view.handle_command(command);
        if action == Action::Quit {
            self.should_quit = true;
        }
        action
    }

    /// What to draw: the view's rows, the status bar brought up to date, and
    /// the caret over the cursor.
    pub fn refresh_screen(&mut self) -> (r: Frame)
        requires
            old(self).wf(),
        ensures
            final(self).wf(),
            final(self).view_model() == old(self).view_model(),
            final(self).quitting() == old(self).quitting(),
            crate::view::renders(old(self).redraw_pending(), old(self).view_model(), r.rows@),
            crate::view::reports(final(self).status_bar().status(), old(self).view_model()),
            (r.status is Some) == (old(self).status_bar().redraw_pending() || !same_status(
                old(self).status_bar().status(),
                final(self).status_bar().status(),
            )),
            !final(self).status_bar().redraw_pending(),
            r.status matches Some((row, text)) ==> row == final(self).status_bar().row() && text@
                == crate::statusbar::status_line(
                final(self).status_bar().status(),
                final(self).status_bar().width() as int / 3,
            ),
            r.caret.row == sub_floor(
                old(self).view_model().position().0 as usize,
                old(self).view_model().scroll.row,
            ),
            r.caret.col == sub_floor(
                old(self).view_model().position().1 as usize,
                old(self).view_model().scroll.col,
            ),
    {
        let rows = self.view.render();
        let status = self.view.get_status();
        self.statusbar.update_status(status);
        let status = self.statusbar.render();
        let caret = self.view.caret_position();
        Frame { rows, status, caret }
    }

    /// Records how writing the document to its file went: a success clears
    /// the changed flag, a failure leaves it and is handed back.
    pub fn save(&mut self, outcome: Result<(), FileError>) -> (r: Result<(), FileError>)
        requires
            old(self).wf(),
        ensures
            final(self).wf(),
            r == outcome,
            final(self).view_model() == (ViewModel {
                dirty: old(self).view_model().dirty && (outcome is Err),
                ..old(self).view_model()
            }),
            final(self).quitting() == old(self).quitting(),
    {
        self.view.save(outcome)
    }

    /// The view.
    pub fn view(&self) -> (r: &View)
        ensures
            r.model() == self.view_model(),
            self.wf() ==> r.wf(),
    {
        &self.view
    }

    /// Whether the editor is to stop.
    pub fn should_quit(&self) -> (r: bool)
        ensures
            r == self.quitting(),
    {
        self.should_quit
    }
}

} // verus!
