//! The view: the owner of the document, the cursor, the viewport and the
//! editing mode, which carries out commands and plans what the screen shows.

use crate::buffer::{
    line_at, lines_after_delete, lines_after_delete_range, lines_after_indent,
    lines_after_insert_char, lines_after_insert_line, lines_after_paste, lines_of, valid_location,
    flat, texts_after_indent, texts_after_insert_char, texts_after_paste,
    Buffer, FileError, delete_joins, delete_removes,
};
use crate::editor::DocumentStatus;
use crate::editorcommand::{Direction, EditorCommand};
use crate::line::{graphemes_of, prefix_width};
use crate::position::{location_le, sub_floor, Coords, Location, Size};
use crate::selection::{ordered, range_text, Selection};
use vstd::prelude::*;
use vstd::view::View as _;

verus! {

/// The editing modes.
#[derive(Copy, Clone, Debug, PartialEq, Eq, Structural)]
pub enum Bmode {
    Normal,
    Insert,
    Visual,
    Replace,
}

/// What the caller has to do after a command.
#[derive(Copy, Clone, Debug, PartialEq, Eq, Structural)]
pub enum Action {
    /// Nothing: read the next event.
    Continue,
    /// Write the document to its file, then report how that went.
    Save,
    /// Stop the editor.
    Quit,
}

/// The state of a view, as plain values: the lines as graphemes, and the
/// text of each line.
pub struct ViewModel {
    pub lines: Seq<Seq<Seq<char>>>,
    pub texts: Seq<Seq<char>>,
    pub filename: Seq<char>,
    pub dirty: bool,
    pub cursor: Location,
    pub scroll: Coords,
    pub size: Size,
    pub selection: Selection,
    pub mode: Bmode,
    pub clipboard: Seq<char>,
}

/// The place on line `line` (clamped to the document) nearest to grapheme
/// `g`.
pub open spec fn snap(ls: Seq<Seq<Seq<char>>>, line: int, g: int) -> Location {
    let l = vstd::math::min(line, ls.len() as int);
    Location {
        line_index: l as usize,
        grapheme_index: vstd::math::min(g, line_at(ls, l).len() as int) as usize,
    }
}

/// Where the cursor goes from `loc` when moved in `dir`, with a viewport
/// `height` rows high.
pub open spec fn moved(ls: Seq<Seq<Seq<char>>>, loc: Location, dir: Direction, height: usize) -> Location {
    let l = loc.line_index as int;
    let g = loc.grapheme_index as int;
    let page = sub_floor(height, 1) as int;
    match dir {
        Direction::Up => snap(ls, sub_floor(loc.line_index, 1) as int, g),
        Direction::Down => snap(ls, l + 1, g),
        Direction::PageUp => snap(ls, vstd::math::max(l - page, 0), g),
        Direction::PageDown => snap(ls, l + page, g),
        Direction::Left => Location { grapheme_index: sub_floor(loc.grapheme_index, 1), ..loc },
        Direction::Right => Location {
            grapheme_index: if g < line_at(ls, l).len() {
                (g + 1) as usize
            } else {
                g as usize
            },
            ..loc
        },
        Direction::Home => Location { grapheme_index: 0, ..loc },
        Direction::End => Location { grapheme_index: line_at(ls, l).len() as usize, ..loc },
    }
}

/// The display column of `loc`: the width of the graphemes before it on its
/// line, saturating at `usize::MAX`.
pub open spec fn cursor_col(ls: Seq<Seq<Seq<char>>>, loc: Location) -> int {
    let line = line_at(ls, loc.line_index as int);
    vstd::math::min(
        prefix_width(line, vstd::math::min(loc.grapheme_index as int, line.len() as int)) as int,
        usize::MAX as int,
    )
}

/// The offset along one axis after scrolling the smallest amount that brings
/// `to` into a window `extent` cells long that started at `off`.
pub open spec fn scroll_axis(off: usize, extent: usize, to: int) -> usize {
    if to < off {
        to as usize
    } else if to >= off + extent {
        vstd::math::min(to - extent + 1, usize::MAX as int) as usize
    } else {
        off
    }
}

impl ViewModel {
    /// The cursor lies in the document, and a selection is in progress
    /// exactly in Visual mode, from a place in the document.
    pub open spec fn wf(self) -> bool {
        &&& valid_location(self.lines, self.cursor)
        &&& (self.selection.active <==> self.mode == Bmode::Visual)
        &&& (self.selection.active ==> valid_location(self.lines, self.selection.anchor))
    }

    /// The cursor's display position: its line, and its column.
    pub open spec fn position(self) -> (int, int) {
        (self.cursor.line_index as int, cursor_col(self.lines, self.cursor))
    }

    /// Whether the cursor's display position lies inside the viewport; a
    /// viewport without rows or columns holds nothing.
    pub open spec fn cursor_in_view(self) -> bool {
        let (row, col) = self.position();
        &&& self.scroll.row <= row < self.scroll.row + self.size.height
        &&& self.scroll.col <= col < self.scroll.col + self.size.width
    }

    /// The same state with the cursor at `at`.
    pub open spec fn with_cursor(self, at: Location) -> ViewModel {
        ViewModel { cursor: at, ..self }
    }

    /// The same state with the viewport scrolled the least that brings the
    /// cursor into it.
    pub open spec fn scrolled(self) -> ViewModel {
        let (row, col) = self.position();
        ViewModel {
            scroll: Coords {
                row: scroll_axis(self.scroll.row, self.size.height, row),
                col: scroll_axis(self.scroll.col, self.size.width, col),
            },
            ..self
        }
    }

    /// The same state with the cursor's line in the middle of the viewport;
    /// the column offset stays.
    pub open spec fn centered(self) -> ViewModel {
        ViewModel {
            scroll: Coords {
                row: sub_floor(self.cursor.line_index, self.size.height / 2),
                col: self.scroll.col,
            },
            ..self
        }
    }

    /// The state after one step of the cursor in `dir`, the viewport left
    /// where it is.
    pub open spec fn stepped(self, dir: Direction) -> ViewModel {
        self.with_cursor(moved(self.lines, self.cursor, dir, self.size.height))
    }

    /// The state after moving the cursor in `dir`, the viewport following.
    pub open spec fn moved(self, dir: Direction) -> ViewModel {
        self.stepped(dir).scrolled()
    }

    /// The state after the screen area became `size`, the viewport following
    /// the cursor.
    pub open spec fn resized(self, size: Size) -> ViewModel {
        ViewModel { size, ..self }.scrolled()
    }

    /// The state after typing `c` at the cursor: the cursor moves on by as
    /// many graphemes as the line gained (none where `c` joined the grapheme
    /// before it), and stays on its line where the line got shorter.
    pub open spec fn typed(self, c: char) -> ViewModel {
        let ls = lines_after_insert_char(self.lines, c, self.cursor);
        let l = self.cursor.line_index as int;
        let g = self.cursor.grapheme_index as int;
        let before = line_at(self.lines, l).len() as int;
        let after = line_at(ls, l).len() as int;
        ViewModel {
            lines: ls,
            texts: texts_after_insert_char(self.lines, c, self.cursor),
            dirty: true,
            cursor: Location {
                grapheme_index: (if after > before {
                    g + (after - before)
                } else {
                    vstd::math::min(g, after)
                }) as usize,
                ..self.cursor
            },
            ..self
        }
    }

    /// The state after deleting forward at the cursor.
    pub open spec fn deleted(self) -> ViewModel {
        ViewModel {
            lines: lines_after_delete(self.lines, self.cursor),
            texts: flat(lines_after_delete(self.lines, self.cursor)),
            dirty: self.dirty || delete_removes(self.lines, self.cursor) || delete_joins(
                self.lines,
                self.cursor,
            ),
            ..self
        }
    }

    /// The state after deleting backwards: the cursor steps back one
    /// grapheme, or to the end of the line above from the start of a line,
    /// and what it stepped over goes. At the very start nothing happens.
    pub open spec fn backspaced(self) -> ViewModel {
        let l = self.cursor.line_index;
        let g = self.cursor.grapheme_index;
        if l == 0 && g == 0 {
            self
        } else if g == 0 {
            self.with_cursor(
                Location {
                    line_index: (l - 1) as usize,
                    grapheme_index: line_at(self.lines, l - 1).len() as usize,
                },
            ).deleted()
        } else {
            self.with_cursor(Location { grapheme_index: (g - 1) as usize, ..self.cursor }).deleted()
        }
    }

    /// The state after breaking the line at the cursor, the cursor going to
    /// the start of the new line.
    pub open spec fn line_broken(self) -> ViewModel {
        ViewModel {
            lines: lines_after_insert_line(self.lines, self.cursor),
            texts: flat(lines_after_insert_line(self.lines, self.cursor)),
            dirty: true,
            cursor: Location {
                line_index: (self.cursor.line_index + 1) as usize,
                grapheme_index: 0,
            },
            ..self
        }
    }

    /// The state after opening an empty line below the cursor's and going
    /// there in Insert mode.
    pub open spec fn opened_below(self) -> ViewModel {
        let end = Location {
            grapheme_index: line_at(self.lines, self.cursor.line_index as int).len() as usize,
            ..self.cursor
        };
        ViewModel { mode: Bmode::Insert, ..self.with_cursor(end).line_broken() }
    }

    /// The state after opening an empty line in place of the cursor's, which
    /// moves down, and going there in Insert mode.
    pub open spec fn opened_above(self) -> ViewModel {
        let start = Location { grapheme_index: 0, ..self.cursor };
        ViewModel {
            lines: lines_after_insert_line(self.lines, start),
            texts: flat(lines_after_insert_line(self.lines, start)),
            dirty: true,
            cursor: start,
            mode: Bmode::Insert,
            ..self
        }
    }

    /// The state after indenting the lines from `first` to `last`; the cursor
    /// keeps its place as far as its line allows.
    pub open spec fn indented_rows(self, first: int, last: int) -> ViewModel {
        let ls = lines_after_indent(self.lines, first, last);
        ViewModel {
            lines: ls,
            texts: texts_after_indent(self.lines, first, last),
            dirty: self.dirty || (first <= last && first < self.lines.len()),
            cursor: Location {
                grapheme_index: vstd::math::min(
                    self.cursor.grapheme_index as int,
                    line_at(ls, self.cursor.line_index as int).len() as int,
                ) as usize,
                ..self.cursor
            },
            ..self
        }
    }

    /// The state after starting a selection at the cursor.
    pub open spec fn selection_started(self) -> ViewModel {
        ViewModel {
            selection: Selection { anchor: self.cursor, active: true },
            mode: Bmode::Visual,
            ..self
        }
    }

    /// The state after leaving a selection, back in Normal mode; the anchor
    /// is cleared.
    pub open spec fn exited(self) -> ViewModel {
        ViewModel {
            selection: Selection {
                anchor: Location { grapheme_index: 0, line_index: 0 },
                active: false,
            },
            mode: Bmode::Normal,
            ..self
        }
    }

    /// The state after copying the selected text, if any, to the register.
    pub open spec fn copied(self) -> ViewModel {
        if self.selection.active {
            let (s, e) = ordered(self.selection.anchor, self.cursor);
            ViewModel { clipboard: range_text(self.lines, s, e), ..self }
        } else {
            self
        }
    }

    /// The state after deleting the selected text, if any, the cursor going
    /// to where it started, and leaving the selection.
    pub open spec fn selection_deleted(self) -> ViewModel {
        if self.selection.active {
            let (s, e) = ordered(self.selection.anchor, self.cursor);
            ViewModel {
                lines: lines_after_delete_range(self.lines, s, e),
                texts: flat(lines_after_delete_range(self.lines, s, e)),
                dirty: self.dirty || (s != e && s.line_index < self.lines.len()),
                cursor: s,
                ..self.exited()
            }
        } else {
            self
        }
    }

    /// The state after inserting `text` at the cursor, in place of the
    /// selected text if there is any; the cursor stays where the inserted
    /// text starts, as far as its line allows.
    pub open spec fn text_inserted(self, text: Seq<char>) -> ViewModel {
        let m = self.selection_deleted();
        let pieces = lines_of(text);
        if pieces.len() == 0 {
            m
        } else {
            let ls = lines_after_paste(m.lines, m.cursor, pieces);
            ViewModel {
                lines: ls,
                texts: texts_after_paste(m.lines, m.cursor, pieces),
                dirty: true,
                cursor: Location {
                    grapheme_index: vstd::math::min(
                        m.cursor.grapheme_index as int,
                        line_at(ls, m.cursor.line_index as int).len() as int,
                    ) as usize,
                    ..m.cursor
                },
                ..m
            }
        }
    }

    /// The state after pasting the register at the cursor, back in Normal
    /// mode.
    pub open spec fn pasted(self) -> ViewModel {
        self.text_inserted(self.clipboard).exited()
    }

    /// The state after taking on the document read from the file `filename`,
    /// whose contents are `text`: the cursor and the anchor move to the
    /// nearest places in it.
    pub open spec fn loaded(self, filename: Seq<char>, text: Seq<char>) -> ViewModel {
        let ls = lines_of(text).map_values(|t: Seq<char>| graphemes_of(t));
        ViewModel {
            lines: ls,
            texts: lines_of(text),
            filename,
            dirty: false,
            cursor: snap(ls, self.cursor.line_index as int, self.cursor.grapheme_index as int),
            selection: Selection {
                anchor: snap(
                    ls,
                    self.selection.anchor.line_index as int,
                    self.selection.anchor.grapheme_index as int,
                ),
                ..self.selection
            },
            ..self
        }
    }

    /// The state after `cmd` in Normal mode, before the viewport follows.
    pub open spec fn normal_edited(self, cmd: EditorCommand) -> ViewModel {
        match cmd {
            EditorCommand::Move(d) => self.moved(d),
            EditorCommand::Key(c) => match key_direction(c) {
                Some(d) => self.moved(d),
                None => if c == 'x' {
                    self.deleted()
                } else if c == 'X' {
                    self.backspaced()
                } else if c == 'i' {
                    ViewModel { mode: Bmode::Insert, ..self }
                } else if c == 'r' {
                    ViewModel { mode: Bmode::Replace, ..self }
                } else if c == 'v' {
                    self.selection_started()
                } else if c == 'p' {
                    self.pasted()
                } else if c == 'o' {
                    self.opened_below()
                } else if c == 'O' {
                    self.opened_above()
                } else if c == '>' {
                    self.indented_rows(
                        self.cursor.line_index as int,
                        self.cursor.line_index as int,
                    )
                } else {
                    self
                },
            },
            _ => self,
        }
    }

    /// The state after `cmd` in Insert mode, before the viewport follows.
    pub open spec fn insert_edited(self, cmd: EditorCommand) -> ViewModel {
        match cmd {
            EditorCommand::Escape => ViewModel { mode: Bmode::Normal, ..self },
            EditorCommand::Key(c) => self.typed(c),
            EditorCommand::Delete => self.deleted(),
            EditorCommand::Backspace => self.backspaced(),
            EditorCommand::Move(d) => self.moved(d),
            EditorCommand::Tab => self.typed(' ').typed(' '),
            EditorCommand::Enter => self.line_broken(),
            _ => self,
        }
    }

    /// The state after `cmd` in Replace mode, before the viewport follows.
    pub open spec fn replace_edited(self, cmd: EditorCommand) -> ViewModel {
        match cmd {
            EditorCommand::Escape => ViewModel { mode: Bmode::Normal, ..self },
            EditorCommand::Key(c) => self.deleted().typed(c),
            _ => self,
        }
    }

    /// The state after `cmd` in Visual mode, before the viewport follows.
    pub open spec fn visual_edited(self, cmd: EditorCommand) -> ViewModel {
        match cmd {
            EditorCommand::Escape => self.exited(),
            EditorCommand::Move(d) => self.moved(d),
            EditorCommand::Key(c) => match key_direction(c) {
                Some(d) => self.moved(d),
                None => if c == 'y' {
                    self.copied().exited()
                } else if c == 'd' {
                    self.copied().selection_deleted()
                } else if c == 'p' {
                    self.pasted()
                } else if c == '>' {
                    let (s, e) = ordered(self.selection.anchor, self.cursor);
                    self.exited().indented_rows(s.line_index as int, e.line_index as int)
                } else {
                    self
                },
            },
            _ => self,
        }
    }

    /// The state after `cmd`, before the viewport follows: a resize in any
    /// mode, and otherwise what the current mode makes of it.
    pub open spec fn edited(self, cmd: EditorCommand) -> ViewModel {
        match cmd {
            EditorCommand::Resize(size) => self.resized(size),
            _ => match self.mode {
                Bmode::Normal => self.normal_edited(cmd),
                Bmode::Insert => self.insert_edited(cmd),
                Bmode::Replace => self.replace_edited(cmd),
                Bmode::Visual => self.visual_edited(cmd),
            },
        }
    }

    /// The state after `cmd`: `z` in Normal mode centres the cursor's line,
    /// and after any other command the viewport follows the cursor (movements
    /// and resizes bring it along themselves).
    pub open spec fn after_command(self, cmd: EditorCommand) -> ViewModel {
        if self.mode == Bmode::Normal && cmd == EditorCommand::Key('z') {
            self.centered()
        } else if follows_itself(self.mode, cmd) {
            self.edited(cmd)
        } else {
            self.edited(cmd).scrolled()
        }
    }
}

/// The direction that a movement key of Normal and Visual mode stands for.
pub open spec fn key_direction(c: char) -> Option<Direction> {
    if c == 'h' {
        Some(Direction::Left)
    } else if c == 'j' {
        Some(Direction::Down)
    } else if c == 'k' {
        Some(Direction::Up)
    } else if c == 'l' {
        Some(Direction::Right)
    } else {
        None
    }
}

/// Whether `cmd` in `mode` is a movement or a resize, which bring the
/// viewport after the cursor themselves.
pub open spec fn follows_itself(mode: Bmode, cmd: EditorCommand) -> bool {
    match cmd {
        EditorCommand::Resize(_) => true,
        EditorCommand::Move(_) => mode != Bmode::Replace,
        EditorCommand::Key(c) => (mode == Bmode::Normal || mode == Bmode::Visual) && key_direction(
            c,
        ) is Some,
        _ => false,
    }
}

/// What the caller has to do after `cmd` in `mode`: `q` in Normal mode stops
/// the editor, `s` in Normal mode saves.
pub open spec fn command_action(mode: Bmode, cmd: EditorCommand) -> Action {
    if mode == Bmode::Normal && cmd == EditorCommand::Key('q') {
        Action::Quit
    } else if mode == Bmode::Normal && cmd == EditorCommand::Key('s') {
        Action::Save
    } else {
        Action::Continue
    }
}

/// The range of grapheme indices selected on line `row`, or the empty range
/// at the end of the line where none is.
pub open spec fn selected_span(m: ViewModel, row: int) -> (int, int) {
    let n = line_at(m.lines, row).len() as int;
    let (s, e) = ordered(m.selection.anchor, m.cursor);
    if m.selection.active && s.line_index <= row <= e.line_index {
        (
            if row == s.line_index {
                s.grapheme_index as int
            } else {
                0
            },
            if row == e.line_index {
                e.grapheme_index as int
            } else {
                n
            },
        )
    } else {
        (n, n)
    }
}

/// What screen row `i` shows: the part of its line inside the viewport, cut
/// into the text before the selection, the selected text and the text after
/// it; a tilde past the end of the document.
pub open spec fn rendered_row(m: ViewModel, i: int) -> (Seq<char>, Seq<char>, Seq<char>) {
    let row = vstd::math::min(i + m.scroll.row, usize::MAX as int);
    if row < m.lines.len() {
        let line = m.lines[row];
        let n = line.len() as int;
        let start = m.scroll.col as int;
        let end = vstd::math::min(m.scroll.col + m.size.width, usize::MAX as int);
        let (lo, hi) = selected_span(m, row);
        (
            crate::line::visible_text(line, n, start, end, 0, lo),
            crate::line::visible_text(line, n, start, end, lo, hi),
            crate::line::visible_text(line, n, start, end, hi, n),
        )
    } else {
        (seq!['~'], seq![], seq![])
    }
}

/// The name and version of the editor.
pub open spec fn welcome_message() -> Seq<char> {
    "modal_editor version 0.1.0"@
}

/// The welcome line on a screen `width` columns wide: a tilde, then the
/// message about centred, cut at the screen's edge.
pub open spec fn welcome_line(width: usize, msg: Seq<char>) -> Seq<char> {
    let padding = sub_floor(width, msg.len() as usize) / 2;
    let line = seq!['~'] + Seq::new(sub_floor(padding, 1) as nat, |k: int| ' ') + msg;
    line.take(vstd::math::min(width as int, line.len() as int))
}

/// What screen row `i` shows of a view in state `m`: the welcome screen
/// for an empty document, the document through the viewport otherwise.
pub open spec fn screen_row(m: ViewModel, i: int) -> (Seq<char>, Seq<char>, Seq<char>) {
    if m.lines.len() == 0 {
        (
            if i == m.size.height / 2 {
                welcome_line(m.size.width, welcome_message())
            } else {
                seq!['~']
            },
            Seq::<char>::empty(),
            Seq::<char>::empty(),
        )
    } else {
        rendered_row(m, i)
    }
}

/// Whether `rows` is what drawing a view in state `m` prints: every screen
/// row, top to bottom, where a redraw is `pending` and the screen has rows
/// and columns; nothing otherwise.
pub open spec fn renders(pending: bool, m: ViewModel, rows: Seq<RenderRow>) -> bool {
    if !pending || m.size.height == 0 || m.size.width == 0 {
        rows.len() == 0
    } else {
        &&& rows.len() == m.size.height
        &&& forall|i: int|
            0 <= i < rows.len() ==> {
                &&& (#[trigger] rows[i]).row == i
                &&& (rows[i].left@, rows[i].selected@, rows[i].right@) == screen_row(m, i)
            }
    }
}

/// Whether `status` reports on a view in state `m`: its number of lines,
/// the cursor's line, whether the document changed, its file and the mode.
pub open spec fn reports(status: DocumentStatus, m: ViewModel) -> bool {
    &&& status.total_lines == m.lines.len()
    &&& status.current_line_index == m.cursor.line_index
    &&& status.is_modified == m.dirty
    &&& status.filename@ == m.filename
    &&& status.bmode_string@ == match m.mode {
        Bmode::Insert => "Insert"@,
        Bmode::Normal => "Normal"@,
        Bmode::Replace => "Replace"@,
        Bmode::Visual => "Visual"@,
    }
}

/// One screen row as it is to be printed: the text before the selection,
/// the selected text, which is highlighted, and the text after it.
pub struct RenderRow {
    pub row: usize,
    pub left: String,
    pub selected: String,
    pub right: String,
}

/// The owner of the document, the cursor, the viewport, the selection, the
/// editing mode and the clipboard register.
pub struct View {
    buffer: Buffer,
    needs_redraw: bool,
    text_location: Location,
    scroll_offset: Coords,
    size: Size,
    selection: Selection,
    bmode: Bmode,
    clipboard: String,
}

impl View {
    /// The state of the view as plain values.
    pub closed spec fn model(&self) -> ViewModel {
        ViewModel {
            lines: self.buffer@,
            texts: self.buffer.texts(),
            filename: self.buffer.filename()@,
            dirty: self.buffer.is_dirty(),
            cursor: self.text_location,
            scroll: self.scroll_offset,
            size: self.size,
            selection: self.selection,
            mode: self.bmode,
            clipboard: self.clipboard@,
        }
    }

    /// The document is well formed and so is the state around it.
    pub closed spec fn wf(&self) -> bool {
        self.buffer.wf() && self.model().wf()
    }

    /// A well-formed view has a well-formed state: the cursor lies in the
    /// document, and a selection is in progress exactly in Visual mode.
    pub proof fn lemma_wf_model(&self)
        requires
            self.wf(),
        ensures
            self.model().wf(),
    {
    }

    /// Whether the screen has to be drawn again.
    pub closed spec fn redraw_pending(&self) -> bool {
        self.needs_redraw
    }

    /// A view of an empty document, on a screen area of `size`.
    pub fn new(size: Size) -> (r: View)
        ensures
            r.wf(),
            r.model().lines == Seq::<Seq<Seq<char>>>::empty(),
            r.model().filename == "default.txt"@,
            !r.model().dirty,
            r.model().cursor == (Location { grapheme_index: 0, line_index: 0 }),
            r.model().scroll == (Coords { row: 0, col: 0 }),
            r.model().size == size,
            !r.model().selection.active,
            r.model().mode == Bmode::Normal,
            r.model().clipboard == Seq::<char>::empty(),
    {
        View {
            buffer: Buffer::default(),
            needs_redraw: true,
            text_location: Location::default(),
            scroll_offset: Coords::default(),
            size,
            selection: Selection::default(),
            bmode: Bmode::Normal,
            clipboard: String::new(),
        }
    }

    /// The display position of the cursor in the document.
    pub fn text_location_to_position(&self) -> (r: Coords)
        requires
            self.wf(),
        ensures
            r.row == self.model().position().0,
            r.col == self.model().position().1,
    {
        let row = self.text_location.line_index;
        let col = if row < self.buffer.height() {
            self.buffer.line(row).width_until(self.text_location.grapheme_index)
        } else {
            0
        };
        Coords { row, col }
    }

    /// Where the caret goes on screen: the cursor's display position relative
    /// to the viewport.
    pub fn caret_position(&self) -> (r: Coords)
        requires
            self.wf(),
        ensures
            r.row == sub_floor(self.model().position().0 as usize, self.model().scroll.row),
            r.col == sub_floor(self.model().position().1 as usize, self.model().scroll.col),
    {
        self.text_location_to_position().saturating_sub(self.scroll_offset)
    }

    fn scroll_vertically(&mut self, to: usize)
        ensures
            final(self).scroll_offset.row == scroll_axis(
                old(self).scroll_offset.row,
                old(self).size.height,
                to as int,
            ),
            final(self).scroll_offset.col == old(self).scroll_offset.col,
            final(self).buffer == old(self).buffer,
            final(self).text_location == old(self).text_location,
            final(self).size == old(self).size,
            final(self).selection == old(self).selection,
            final(self).bmode == old(self).bmode,
            final(self).clipboard == old(self).clipboard,
    {
        let height = self.size.height;
        let offset_changed = if to < self.scroll_offset.row {
            self.scroll_offset.row = to;
            true
        } else if to - self.scroll_offset.row >= height {
            self.scroll_offset.row = (to - height).saturating_add(1);
            true
        } else {
            false
        };
        self.needs_redraw = self.needs_redraw || offset_changed;
    }

    fn scroll_horizontally(&mut self, to: usize)
        ensures
            final(self).scroll_offset.col == scroll_axis(
                old(self).scroll_offset.col,
                old(self).size.width,
                to as int,
            ),
            final(self).scroll_offset.row == old(self).scroll_offset.row,
            final(self).buffer == old(self).buffer,
            final(self).text_location == old(self).text_location,
            final(self).size == old(self).size,
            final(self).selection == old(self).selection,
            final(self).bmode == old(self).bmode,
            final(self).clipboard == old(self).clipboard,
    {
        let width = self.size.width;
        let offset_changed = if to < self.scroll_offset.col {
            self.scroll_offset.col = to;
            true
        } else if to - self.scroll_offset.col >= width {
            self.scroll_offset.col = (to - width).saturating_add(1);
            true
        } else {
            false
        };
        self.needs_redraw = self.needs_redraw || offset_changed;
    }

    fn scroll_text_location_into_view(&mut self)
        requires
            old(self).wf(),
        ensures
            final(self).wf(),
            final(self).model() == old(self).model().scrolled(),
    {
        let Coords { row, col } = self.text_location_to_position();
        self.scroll_vertically(row);
        self.scroll_horizontally(col);
    }

    fn center_cursor(&mut self)
        requires
            old(self).wf(),
        ensures
            final(self).wf(),
            final(self).model() == old(self).model().centered(),
    {
        let height = self.size.height;
        self.scroll_offset.row = self.text_location.line_index.saturating_sub(height / 2);
        self.needs_redraw = true;
    }

    fn snap_location(&self, line: usize, g: usize) -> (r: Location)
        ensures
            r == snap(self.buffer@, line as int, g as int),
            self.buffer@.len() <= usize::MAX,
    {
        let height = self.buffer.height();
        let l = if line < height {
            line
        } else {
            height
        };
        let count = self.buffer.line_len(l);
        let gi = if g < count {
            g
        } else {
            count
        };
        Location { line_index: l, grapheme_index: gi }
    }

    /// Moves the cursor `step` lines up (stopping at the first), to the
    /// nearest grapheme of its new line; the viewport stays.
    pub fn move_up(&mut self, step: usize)
        requires
            old(self).wf(),
        ensures
            final(self).wf(),
            final(self).model().wf(),
            final(self).model() == old(self).model().with_cursor(
                snap(
                    old(self).model().lines,
                    sub_floor(old(self).model().cursor.line_index, step) as int,
                    old(self).model().cursor.grapheme_index as int,
                ),
            ),
    {
        self.text_location.line_index = self.text_location.line_index.saturating_sub(step);
        self.snap_to_valid_grapheme();
    }

    /// Moves the cursor `step` lines down (stopping just past the last), to
    /// the nearest grapheme of its new line; the viewport stays.
    pub fn move_down(&mut self, step: usize)
        requires
            old(self).wf(),
        ensures
            final(self).wf(),
            final(self).model().wf(),
            final(self).model() == old(self).model().with_cursor(
                snap(
                    old(self).model().lines,
                    old(self).model().cursor.line_index + step,
                    old(self).model().cursor.grapheme_index as int,
                ),
            ),
    {
        self.text_location.line_index = self.text_location.line_index.saturating_add(step);
        self.snap_to_valid_line();
        self.snap_to_valid_grapheme();
    }

    fn move_right(&mut self)
        requires
            old(self).wf(),
        ensures
            final(self).wf(),
            final(self).model() == old(self).model().stepped(Direction::Right),
    {
        let line_width = self.buffer.line_len(self.text_location.line_index);
        if self.text_location.grapheme_index < line_width {
            self.text_location.grapheme_index = self.text_location.grapheme_index + 1;
        }
    }

    fn move_left(&mut self)
        requires
            old(self).wf(),
        ensures
            final(self).wf(),
            final(self).model() == old(self).model().stepped(Direction::Left),
    {
        if self.text_location.grapheme_index > 0 {
            self.text_location.grapheme_index = self.text_location.grapheme_index - 1;
        }
    }

    fn move_to_start_of_line(&mut self)
        requires
            old(self).wf(),
        ensures
            final(self).wf(),
            final(self).model() == old(self).model().stepped(Direction::Home),
    {
        self.text_location.grapheme_index = 0;
    }

    fn move_to_end_of_line(&mut self)
        requires
            old(self).wf(),
        ensures
            final(self).wf(),
            final(self).model() == old(self).model().stepped(Direction::End),
    {
        self.text_location.grapheme_index = self.buffer.line_len(self.text_location.line_index);
    }

    /// Moves the cursor back to the end of its line where it lies past it.
    fn snap_to_valid_grapheme(&mut self)
        requires
            old(self).buffer.wf(),
            old(self).text_location.line_index <= old(self).buffer@.len(),
            old(self).selection.active ==> valid_location(old(self).buffer@, old(self).selection.anchor),
            old(self).selection.active <==> old(self).bmode == Bmode::Visual,
        ensures
            final(self).wf(),
            final(self).model() == old(self).model().with_cursor(
                snap(
                    old(self).model().lines,
                    old(self).text_location.line_index as int,
                    old(self).text_location.grapheme_index as int,
                ),
            ),
    {
        let count = self.buffer.line_len(self.text_location.line_index);
        if self.text_location.grapheme_index > count {
            self.text_location.grapheme_index = count;
        }
    }

    /// Moves the cursor up to just past the last line where it lies further.
    fn snap_to_valid_line(&mut self)
        ensures
            final(self).model() == old(self).model().with_cursor(
                Location {
                    line_index: vstd::math::min(
                        old(self).text_location.line_index as int,
                        old(self).buffer@.len() as int,
                    ) as usize,
                    ..old(self).text_location
                },
            ),
            final(self).buffer == old(self).buffer,
            final(self).selection == old(self).selection,
            final(self).bmode == old(self).bmode,
            old(self).buffer@.len() <= usize::MAX,
    {
        let height = self.buffer.height();
        if self.text_location.line_index > height {
            self.text_location.line_index = height;
        }
    }

    /// Moves the cursor one step in `direction` (a page for the page keys)
    /// and brings the viewport after it.
    pub fn move_text_location(&mut self, direction: Direction)
        requires
            old(self).wf(),
        ensures
            final(self).wf(),
            final(self).model().wf(),
            final(self).model() == old(self).model().moved(direction),
            final(self).model().size.height > 0 && final(self).model().size.width > 0
                ==> final(self).model().cursor_in_view(),
    {
        let page = self.size.height.saturating_sub(1);
        match direction {
            Direction::Up => self.move_up(1),
            Direction::Down => self.move_down(1),
            Direction::PageUp => self.move_up(page),
            Direction::PageDown => self.move_down(page),
            Direction::Left => self.move_left(),
            Direction::Right => self.move_right(),
            Direction::Home => self.move_to_start_of_line(),
            Direction::End => self.move_to_end_of_line(),
        }
        self.scroll_text_location_into_view();
        proof {
            if self.size.height > 0 && self.size.width > 0 {
                lemma_scrolled_in_view(old(self).model().stepped(direction));
            }
        }
    }

    fn insert_char(&mut self, c: char)
        requires
            old(self).wf(),
            !old(self).model().selection.active,
        ensures
            final(self).wf(),
            final(self).model() == old(self).model().typed(c),
    {
        let l = self.text_location.line_index;
        let old_len = self.buffer.line_len(l);
        self.buffer.insert_char(c, self.text_location);
        let new_len = self.buffer.line_len(l);
        let g = self.text_location.grapheme_index;
        if new_len > old_len {
            self.text_location.grapheme_index = g + (new_len - old_len);
        } else if g > new_len {
            self.text_location.grapheme_index = new_len;
        }
        self.needs_redraw = true;
    }

    fn delete(&mut self)
        requires
            old(self).wf(),
            !old(self).model().selection.active,
        ensures
            final(self).wf(),
            final(self).model() == old(self).model().deleted(),
    {
        self.buffer.delete(self.text_location);
        self.needs_redraw = true;
    }

    fn backspace(&mut self)
        requires
            old(self).wf(),
            !old(self).model().selection.active,
        ensures
            final(self).wf(),
            final(self).model() == old(self).model().backspaced(),
    {
        let Location { line_index: l, grapheme_index: g } = self.text_location;
        if l != 0 || g != 0 {
            if g == 0 {
                let above = self.buffer.line_len(l - 1);
                self.text_location = Location { line_index: l - 1, grapheme_index: above };
            } else {
                self.text_location.grapheme_index = g - 1;
            }
            self.delete();
        }
    }

    fn insert_line(&mut self)
        requires
            old(self).wf(),
            !old(self).model().selection.active,
        ensures
            final(self).wf(),
            final(self).model() == old(self).model().line_broken(),
    {
        self.buffer.insert_line(self.text_location);
        let height = self.buffer.height();
        assert(self.text_location.line_index < height);
        self.text_location = Location {
            line_index: self.text_location.line_index + 1,
            grapheme_index: 0,
        };
        self.needs_redraw = true;
    }

    fn open_below(&mut self)
        requires
            old(self).wf(),
            !old(self).model().selection.active,
        ensures
            final(self).wf(),
            final(self).model() == old(self).model().opened_below(),
    {
        self.text_location.grapheme_index = self.buffer.line_len(self.text_location.line_index);
        self.insert_line();
        self.bmode = Bmode::Insert;
    }

    fn open_above(&mut self)
        requires
            old(self).wf(),
            !old(self).model().selection.active,
        ensures
            final(self).wf(),
            final(self).model() == old(self).model().opened_above(),
    {
        self.text_location.grapheme_index = 0;
        self.buffer.insert_line(self.text_location);
        self.bmode = Bmode::Insert;
        self.needs_redraw = true;
    }

    fn indent(&mut self, first: usize, last: usize)
        requires
            old(self).wf(),
            !old(self).model().selection.active,
        ensures
            final(self).wf(),
            final(self).model() == old(self).model().indented_rows(first as int, last as int),
    {
        self.buffer.indent(first, last);
        let count = self.buffer.line_len(self.text_location.line_index);
        if self.text_location.grapheme_index > count {
            self.text_location.grapheme_index = count;
        }
        self.needs_redraw = true;
    }

    fn single_indent(&mut self)
        requires
            old(self).wf(),
            !old(self).model().selection.active,
        ensures
            final(self).wf(),
            final(self).model() == old(self).model().indented_rows(
                old(self).model().cursor.line_index as int,
                old(self).model().cursor.line_index as int,
            ),
    {
        let row = self.text_location.line_index;
        self.indent(row, row);
    }

    fn start_selection(&mut self)
        requires
            old(self).wf(),
        ensures
            final(self).wf(),
            final(self).model() == old(self).model().selection_started(),
    {
        self.selection.start_selection(self.text_location);
        self.bmode = Bmode::Visual;
        self.needs_redraw = true;
    }

    fn exit_selection(&mut self)
        requires
            valid_location(old(self).buffer@, old(self).text_location),
            old(self).buffer.wf(),
        ensures
            final(self).wf(),
            final(self).model() == old(self).model().exited(),
    {
        self.selection.exit();
        self.bmode = Bmode::Normal;
        self.needs_redraw = true;
    }

    /// The selected range, earlier end first; nothing without a selection.
    pub fn process_selection(&self) -> (r: Option<(Location, Location)>)
        ensures
            r == if self.model().selection.active {
                Some(ordered(self.model().selection.anchor, self.model().cursor))
            } else {
                None
            },
            r matches Some((s, e)) ==> location_le(s, e),
    {
        self.selection.normalized_range(self.text_location)
    }

    fn multi_indent(&mut self)
        requires
            old(self).wf(),
        ensures
            final(self).wf(),
            final(self).model() == ({
                let m = old(self).model();
                let (s, e) = ordered(m.selection.anchor, m.cursor);
                if m.selection.active {
                    m.exited().indented_rows(s.line_index as int, e.line_index as int)
                } else {
                    m.exited()
                }
            }),
    {
        let range = self.process_selection();
        self.exit_selection();
        if let Some((start, end)) = range {
            self.indent(start.line_index, end.line_index);
        }
    }

    /// Takes on a screen area of `size` and brings the viewport after the
    /// cursor.
    pub fn resize(&mut self, size: Size)
        requires
            old(self).wf(),
        ensures
            final(self).wf(),
            final(self).model().wf(),
            final(self).model() == old(self).model().resized(size),
            size.height > 0 && size.width > 0 ==> final(self).model().cursor_in_view(),
    {
        self.size = size;
        self.scroll_text_location_into_view();
        self.needs_redraw = true;
        proof {
            if size.height > 0 && size.width > 0 {
                lemma_scrolled_in_view(ViewModel { size, ..old(self).model() });
            }
        }
    }

    /// Whether the grapheme at `grapheme_index` on line `line_index` is
    /// selected: from the start of the selection up to, not including, its
    /// end.
    pub fn is_selected(&self, line_index: usize, grapheme_index: usize) -> (r: bool)
        ensures
            r == (self.model().selection.active && {
                let (s, e) = ordered(self.model().selection.anchor, self.model().cursor);
                let p = Location { grapheme_index, line_index };
                location_le(s, p) && !location_le(e, p)
            }),
    {
        self.selection.contains(self.text_location, line_index, grapheme_index)
    }

    /// The selected text, its lines joined by newlines; nothing without a
    /// selection.
    pub fn selected_text(&self) -> (r: Option<String>)
        requires
            self.wf(),
        ensures
            r == None::<String> <==> !self.model().selection.active,
            r matches Some(t) ==> t@ == {
                let (s, e) = ordered(self.model().selection.anchor, self.model().cursor);
                range_text(self.model().lines, s, e)
            },
    {
        self.selection.extract_text(self.text_location, &self.buffer)
    }

    fn copy(&mut self)
        requires
            old(self).wf(),
        ensures
            final(self).wf(),
            final(self).model() == old(self).model().copied(),
    {
        if let Some(text) = self.selected_text() {
            self.clipboard = text;
        }
    }

    fn copy_and_exit(&mut self)
        requires
            old(self).wf(),
        ensures
            final(self).wf(),
            final(self).model() == old(self).model().copied().exited(),
    {
        self.copy();
        self.exit_selection();
    }

    fn delete_selection(&mut self)
        requires
            old(self).wf(),
        ensures
            final(self).wf(),
            final(self).model() == old(self).model().selection_deleted(),
    {
        let (start, end) = match self.process_selection() {
            Some(range) => range,
            None => {
                return;
            },
        };
        self.exit_selection();
        self.buffer.delete_range(start, end);
        self.text_location = start;
    }

    fn cut(&mut self)
        requires
            old(self).wf(),
        ensures
            final(self).wf(),
            final(self).model() == old(self).model().copied().selection_deleted(),
    {
        self.copy();
        self.delete_selection();
    }

    fn insert_text(&mut self, text: &str)
        requires
            old(self).wf(),
        ensures
            final(self).wf(),
            final(self).model() == old(self).model().text_inserted(text@),
    {
        self.delete_selection();
        let pieces = crate::buffer::split_lines(text);
        if pieces.len() > 0 {
            self.buffer.paste(self.text_location, &pieces);
            let count = self.buffer.line_len(self.text_location.line_index);
            if self.text_location.grapheme_index > count {
                self.text_location.grapheme_index = count;
            }
        }
        self.needs_redraw = true;
    }

    fn paste(&mut self)
        requires
            old(self).wf(),
        ensures
            final(self).wf(),
            final(self).model() == old(self).model().pasted(),
    {
        let text = self.clipboard.clone();
        self.insert_text(text.as_str());
        self.exit_selection();
    }

    fn key_direction(c: char) -> (r: Option<Direction>)
        ensures
            r == key_direction(c),
    {
        if c == 'h' {
            Some(Direction::Left)
        } else if c == 'j' {
            Some(Direction::Down)
        } else if c == 'k' {
            Some(Direction::Up)
        } else if c == 'l' {
            Some(Direction::Right)
        } else {
            None
        }
    }

    fn handle_normal(&mut self, command: EditorCommand)
        requires
            old(self).wf(),
            old(self).model().mode == Bmode::Normal,
        ensures
            final(self).wf(),
            final(self).model() == old(self).model().normal_edited(command),
    {
        match command {
            EditorCommand::Move(d) => self.move_text_location(d),
            EditorCommand::Key(c) => match Self::key_direction(c) {
                Some(d) => self.move_text_location(d),
                None => {
                    if c == 'x' {
                        self.delete();
                    } else if c == 'X' {
                        self.backspace();
                    } else if c == 'i' {
                        self.bmode = Bmode::Insert;
                    } else if c == 'r' {
                        self.bmode = Bmode::Replace;
                    } else if c == 'v' {
                        self.start_selection();
                    } else if c == 'p' {
                        self.paste();
                    } else if c == 'o' {
                        self.open_below();
                    } else if c == 'O' {
                        self.open_above();
                    } else if c == '>' {
                        self.single_indent();
                    }
                },
            },
            _ => {},
        }
    }

    fn handle_insert(&mut self, command: EditorCommand)
        requires
            old(self).wf(),
            old(self).model().mode == Bmode::Insert,
        ensures
            final(self).wf(),
            final(self).model() == old(self).model().insert_edited(command),
    {
        match command {
            EditorCommand::Escape => self.bmode = Bmode::Normal,
            EditorCommand::Key(c) => self.insert_char(c),
            EditorCommand::Delete => self.delete(),
            EditorCommand::Backspace => self.backspace(),
            EditorCommand::Move(d) => self.move_text_location(d),
            EditorCommand::Tab => {
                self.insert_char(' ');
                self.insert_char(' ');
            },
            EditorCommand::Enter => self.insert_line(),
            _ => {},
        }
    }

    fn handle_replace(&mut self, command: EditorCommand)
        requires
            old(self).wf(),
            old(self).model().mode == Bmode::Replace,
        ensures
            final(self).wf(),
            final(self).model() == old(self).model().replace_edited(command),
    {
        match command {
            EditorCommand::Escape => self.bmode = Bmode::Normal,
            EditorCommand::Key(c) => {
                self.delete();
                self.insert_char(c);
            },
            _ => {},
        }
    }

    fn handle_visual(&mut self, command: EditorCommand)
        requires
            old(self).wf(),
            old(self).model().mode == Bmode::Visual,
        ensures
            final(self).wf(),
            final(self).model() == old(self).model().visual_edited(command),
    {
        match command {
            EditorCommand::Escape => self.exit_selection(),
            EditorCommand::Move(d) => self.move_text_location(d),
            EditorCommand::Key(c) => match Self::key_direction(c) {
                Some(d) => self.move_text_location(d),
                None => {
                    if c == 'y' {
                        self.copy_and_exit();
                    } else if c == 'd' {
                        self.cut();
                    } else if c == 'p' {
                        self.paste();
                    } else if c == '>' {
                        self.multi_indent();
                    }
                },
            },
            _ => {},
        }
    }

    /// Carries out `command` in the current mode and brings the viewport
    /// after the cursor; the result says whether to save or to stop.
    pub fn handle_command(&mut self, command: EditorCommand) -> (r: Action)
        requires
            old(self).wf(),
        ensures
            final(self).wf(),
            final(self).model().wf(),
            final(self).model() == old(self).model().after_command(command),
            r == command_action(old(self).model().mode, command),
            final(self).redraw_pending(),
            !(old(self).model().mode == Bmode::Normal && command == EditorCommand::Key('z'))
                && final(self).model().size.height > 0 && final(self).model().size.width > 0
                ==> final(self).model().cursor_in_view(),
            old(self).model().mode == Bmode::Normal && command == EditorCommand::Key('z')
                ==> final(self).model().scroll.row == sub_floor(
                old(self).model().cursor.line_index,
                old(self).model().size.height / 2,
            ) && final(self).model().scroll.col == old(self).model().scroll.col,
            old(self).model().mode == Bmode::Normal && command == EditorCommand::Escape ==> {
                &&& final(self).model().mode == old(self).model().mode
                &&& final(self).model().cursor == old(self).model().cursor
                &&& final(self).model().lines == old(self).model().lines
            },
    {
        let mode = self.bmode;
        match command {
            EditorCommand::Resize(size) => self.resize(size),
            _ => match mode {
                Bmode::Normal => self.handle_normal(command),
                Bmode::Insert => self.handle_insert(command),
                Bmode::Replace => self.handle_replace(command),
                Bmode::Visual => self.handle_visual(command),
            },
        }
        let follows = match command {
            EditorCommand::Resize(_) => true,
            EditorCommand::Move(_) => mode != Bmode::Replace,
            EditorCommand::Key(c) => (mode == Bmode::Normal || mode == Bmode::Visual)
                && Self::key_direction(c).is_some(),
            _ => false,
        };
        if mode == Bmode::Normal && command == EditorCommand::Key('z') {
            self.center_cursor();
        } else if !follows {
            self.scroll_text_location_into_view();
        }
        proof {
            if self.size.height > 0 && self.size.width > 0 && !(mode == Bmode::Normal && command
                == EditorCommand::Key('z')) {
                lemma_command_in_view(old(self).model(), command);
            }
        }
        self.needs_redraw = true;
        if mode == Bmode::Normal && command == EditorCommand::Key('q') {
            Action::Quit
        } else if mode == Bmode::Normal && command == EditorCommand::Key('s') {
            Action::Save
        } else {
            Action::Continue
        }
    }
}

impl View {
    fn selected_span(&self, row: usize, n: usize) -> (r: (usize, usize))
        requires
            self.wf(),
            n == line_at(self.buffer@, row as int).len(),
        ensures
            r.0 == selected_span(self.model(), row as int).0,
            r.1 == selected_span(self.model(), row as int).1,
    {
        match self.process_selection() {
            Some((s, e)) => {
                if s.line_index <= row && row <= e.line_index {
                    let lo = if row == s.line_index {
                        s.grapheme_index
                    } else {
                        0
                    };
                    let hi = if row == e.line_index {
                        e.grapheme_index
                    } else {
                        n
                    };
                    (lo, hi)
                } else {
                    (n, n)
                }
            },
            None => (n, n),
        }
    }

    fn render_row(&self, i: usize) -> (r: RenderRow)
        requires
            self.wf(),
        ensures
            r.row == i,
            (r.left@, r.selected@, r.right@) == rendered_row(self.model(), i as int),
    {
        let row = i.saturating_add(self.scroll_offset.row);
        if row < self.buffer.height() {
            let line = self.buffer.line(row);
            let n = line.grapheme_count();
            let (lo, hi) = self.selected_span(row, n);
            let start = self.scroll_offset.col;
            let end = self.scroll_offset.col.saturating_add(self.size.width);
            RenderRow {
                row: i,
                left: line.visible_slice(start, end, 0, lo),
                selected: line.visible_slice(start, end, lo, hi),
                right: line.visible_slice(start, end, hi, n),
            }
        } else {
            let mut left = String::new();
            crate::line::push_char(&mut left, '~');
            assert(left@ =~= seq!['~']);
            RenderRow { row: i, left, selected: String::new(), right: String::new() }
        }
    }

    fn draw_welcome_message(&self) -> (r: String)
        ensures
            r@ == welcome_line(self.size.width, welcome_message()),
    {
        let msg = "modal_editor version 0.1.0";
        let width = self.size.width;
        let len = msg.unicode_len();
        let padding = width.saturating_sub(len) / 2;
        let spaces = padding.saturating_sub(1);
        let mut line = String::new();
        crate::line::push_char(&mut line, '~');
        let mut k: usize = 0;
        while k < spaces
            invariant
                k <= spaces,
                line@ == seq!['~'] + Seq::new(k as nat, |j: int| ' '),
            decreases spaces - k,
        {
            crate::line::push_char(&mut line, ' ');
            assert(seq!['~'] + Seq::new((k + 1) as nat, |j: int| ' ') =~= (seq!['~'] + Seq::new(
                k as nat,
                |j: int| ' ',
            )).push(' '));
            k = k + 1;
        }
        line.append(msg);
        let total = line.as_str().unicode_len();
        if total <= width {
            assert(line@.take(total as int) =~= line@);
            line
        } else {
            String::from_str(line.as_str().substring_char(0, width))
        }
    }

    fn render_welcome_screen(&self) -> (r: Vec<RenderRow>)
        requires
            self.wf(),
        ensures
            r@.len() == self.size.height,
            forall|i: int|
                0 <= i < r@.len() ==> {
                    &&& (#[trigger] r@[i]).row == i
                    &&& r@[i].left@ == if i == self.size.height / 2 {
                        welcome_line(self.size.width, welcome_message())
                    } else {
                        seq!['~']
                    }
                    &&& r@[i].selected@ == Seq::<char>::empty()
                    &&& r@[i].right@ == Seq::<char>::empty()
                },
    {
        let height = self.size.height;
        let mut rows: Vec<RenderRow> = Vec::new();
        let mut i: usize = 0;
        while i < height
            invariant
                i <= height == self.size.height,
                rows@.len() == i,
                forall|j: int|
                    0 <= j < i ==> {
                        &&& (#[trigger] rows@[j]).row == j
                        &&& rows@[j].left@ == if j == height / 2 {
                            welcome_line(self.size.width, welcome_message())
                        } else {
                            seq!['~']
                        }
                        &&& rows@[j].selected@ == Seq::<char>::empty()
                        &&& rows@[j].right@ == Seq::<char>::empty()
                    },
            decreases height - i,
        {
            let left = if i == height / 2 {
                self.draw_welcome_message()
            } else {
                let mut t = String::new();
                crate::line::push_char(&mut t, '~');
                assert(t@ =~= seq!['~']);
                t
            };
            rows.push(RenderRow { row: i, left, selected: String::new(), right: String::new() });
            i = i + 1;
        }
        rows
    }

    fn render_buffer(&self) -> (r: Vec<RenderRow>)
        requires
            self.wf(),
        ensures
            r@.len() == self.size.height,
            forall|i: int|
                0 <= i < r@.len() ==> {
                    &&& (#[trigger] r@[i]).row == i
                    &&& (r@[i].left@, r@[i].selected@, r@[i].right@) == rendered_row(
                        self.model(),
                        i,
                    )
                },
    {
        let height = self.size.height;
        let mut rows: Vec<RenderRow> = Vec::new();
        let mut i: usize = 0;
        while i < height
            invariant
                self.wf(),
                i <= height == self.size.height,
                rows@.len() == i,
                forall|j: int|
                    0 <= j < i ==> {
                        &&& (#[trigger] rows@[j]).row == j
                        &&& (rows@[j].left@, rows@[j].selected@, rows@[j].right@)
                            == rendered_row(self.model(), j)
                    },
            decreases height - i,
        {
            rows.push(self.render_row(i));
            i = i + 1;
        }
        rows
    }

    /// The rows to print, top to bottom, where the screen has to be drawn
    /// again and has room: the welcome screen for an empty document, the
    /// document through the viewport otherwise. Nothing where no redraw is
    /// pending or the screen has no rows or no columns.
    pub fn render(&mut self) -> (r: Vec<RenderRow>)
        requires
            old(self).wf(),
        ensures
            final(self).wf(),
            final(self).model() == old(self).model(),
            renders(old(self).redraw_pending(), old(self).model(), r@),
            final(self).redraw_pending() == (old(self).redraw_pending() && (old(
                self,
            ).model().size.height == 0 || old(self).model().size.width == 0)),
    {
        if !self.needs_redraw || self.size.height == 0 || self.size.width == 0 {
            return Vec::new();
        }
        let rows = if self.buffer.is_empty() {
            self.render_welcome_screen()
        } else {
            self.render_buffer()
        };
        self.needs_redraw = false;
        rows
    }
}

impl View {
    /// Takes on the document read from the file `filename`, whose contents
    /// are `text`. The cursor and the selection's anchor move to the nearest
    /// places in it; the rest of the view stays.
    pub fn load(&mut self, filename: &str, text: &str)
        requires
            old(self).wf(),
        ensures
            final(self).wf(),
            final(self).model() == old(self).model().loaded(filename@, text@),
            final(self).redraw_pending(),
    {
        self.buffer = Buffer::load(filename, text);
        let cursor = self.text_location;
        let anchor = self.selection.anchor;
        self.text_location = self.snap_location(cursor.line_index, cursor.grapheme_index);
        self.selection.anchor = self.snap_location(anchor.line_index, anchor.grapheme_index);
        self.needs_redraw = true;
    }

    /// The text of the file that holds the document.
    pub fn file_contents(&self) -> (r: String)
        requires
            self.wf(),
        ensures
            r@ == crate::buffer::file_text(self.model().lines.map_values(|l: Seq<Seq<char>>| l.flatten())),
    {
        self.buffer.contents()
    }

    /// The file the document is saved to.
    pub fn filename(&self) -> (r: &String)
        ensures
            r@ == self.model().filename,
    {
        self.buffer.get_filename()
    }

    /// Records how writing the document to its file went: a success clears
    /// the changed flag, a failure leaves it and is handed back.
    pub fn save(&mut self, outcome: Result<(), FileError>) -> (r: Result<(), FileError>)
        requires
            old(self).wf(),
        ensures
            final(self).wf(),
            r == outcome,
            final(self).model() == (ViewModel {
                dirty: old(self).model().dirty && (outcome is Err),
                ..old(self).model()
            }),
    {
        self.buffer.save(outcome)
    }

    /// The cursor.
    pub fn text_location(&self) -> (r: Location)
        ensures
            r == self.model().cursor,
    {
        self.text_location
    }

    /// The top left corner of the viewport in the document.
    pub fn scroll_offset(&self) -> (r: Coords)
        ensures
            r == self.model().scroll,
    {
        self.scroll_offset
    }

    /// The size of the viewport.
    pub fn size(&self) -> (r: Size)
        ensures
            r == self.model().size,
    {
        self.size
    }

    /// The editing mode.
    pub fn mode(&self) -> (r: Bmode)
        ensures
            r == self.model().mode,
    {
        self.bmode
    }

    /// The selection.
    pub fn selection(&self) -> (r: Selection)
        ensures
            r == self.model().selection,
    {
        self.selection
    }

    /// The clipboard register.
    pub fn clipboard(&self) -> (r: &String)
        ensures
            r@ == self.model().clipboard,
    {
        &self.clipboard
    }

    /// The document.
    pub fn buffer(&self) -> (r: &Buffer)
        requires
            self.wf(),
        ensures
            r.wf(),
            r@ == self.model().lines,
            r.is_dirty() == self.model().dirty,
    {
        &self.buffer
    }
}

impl View {
    /// What the status bar reports: the number of lines, the cursor's line,
    /// whether the document changed, its file and the mode.
    pub fn get_status(&self) -> (r: DocumentStatus)
        ensures
            reports(r, self.model()),
    {
        DocumentStatus {
            total_lines: self.buffer.height(),
            current_line_index: self.text_location.line_index,
            filename: self.buffer.get_filename().clone(),
            is_modified: self.buffer.dirty(),
            bmode_string: self.bmode.as_str(),
        }
    }
}

impl Bmode {
    /// The name of the mode.
    pub fn as_str(&self) -> (r: String)
        ensures
            r@ == match self {
                Bmode::Insert => "Insert"@,
                Bmode::Normal => "Normal"@,
                Bmode::Replace => "Replace"@,
                Bmode::Visual => "Visual"@,
            },
    {
        match self {
            Bmode::Insert => String::from_str("Insert"),
            Bmode::Normal => String::from_str("Normal"),
            Bmode::Replace => String::from_str("Replace"),
            Bmode::Visual => String::from_str("Visual"),
        }
    }
}

/// Every cursor movement from a place in the document ends at a place in the
/// document: on an existing line or the one just past the last, and no
/// further than the end of that line.
pub proof fn lemma_moved_location_valid(
    ls: Seq<Seq<Seq<char>>>,
    loc: Location,
    dir: Direction,
    height: usize,
)
    requires
        ls.len() <= usize::MAX,
        valid_location(ls, loc),
    ensures
        valid_location(ls, moved(ls, loc, dir, height)),
{
}

/// Once the viewport has followed the cursor, the cursor lies inside it.
pub proof fn lemma_scrolled_in_view(m: ViewModel)
    requires
        m.size.height > 0,
        m.size.width > 0,
    ensures
        m.scrolled().cursor_in_view(),
{
}

/// Centring the cursor's line keeps that line inside the viewport.
pub proof fn lemma_centered_row_in_view(m: ViewModel)
    requires
        m.size.height > 0,
    ensures
        m.centered().scroll.row <= m.cursor.line_index < m.centered().scroll.row
            + m.size.height,
{
}

/// After any command but centring, on a screen area with rows and columns,
/// the cursor lies inside the viewport.
pub proof fn lemma_command_in_view(m: ViewModel, cmd: EditorCommand)
    requires
        !(m.mode == Bmode::Normal && cmd == EditorCommand::Key('z')),
        m.after_command(cmd).size.height > 0,
        m.after_command(cmd).size.width > 0,
    ensures
        m.after_command(cmd).cursor_in_view(),
{
    if follows_itself(m.mode, cmd) {
        match cmd {
            EditorCommand::Resize(size) => lemma_scrolled_in_view(ViewModel { size, ..m }),
            EditorCommand::Move(d) => lemma_scrolled_in_view(m.stepped(d)),
            EditorCommand::Key(c) => lemma_scrolled_in_view(m.stepped(key_direction(c)->0)),
            _ => {},
        }
    } else {
        lemma_scrolled_in_view(m.edited(cmd));
    }
}

} // verus!
