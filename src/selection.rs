//! The highlighted range between an anchor and the cursor.

use crate::buffer::{line_at, valid_location, Buffer};
use crate::line::push_char;
use crate::position::{location_le, Location};
use vstd::prelude::*;

verus! {

/// The ends of the range between `anchor` and `cursor`, earlier one first.
pub open spec fn ordered(anchor: Location, cursor: Location) -> (Location, Location) {
    if location_le(anchor, cursor) {
        (anchor, cursor)
    } else {
        (cursor, anchor)
    }
}

/// The text that a range from `start` to `end` covers on line `r`.
pub open spec fn row_piece(ls: Seq<Seq<Seq<char>>>, start: Location, end: Location, r: int) -> Seq<
    char,
> {
    let line = line_at(ls, r);
    let a = if r == start.line_index {
        start.grapheme_index as int
    } else {
        0
    };
    let b = if r == end.line_index {
        end.grapheme_index as int
    } else {
        line.len() as int
    };
    line.subrange(a, b).flatten()
}

/// The text of a range from `start` to `end`, from its first line up to line
/// `r`, the lines joined by newlines.
pub open spec fn range_text_upto(
    ls: Seq<Seq<Seq<char>>>,
    start: Location,
    end: Location,
    r: int,
) -> Seq<char>
    decreases r - start.line_index,
{
    if r <= start.line_index {
        row_piece(ls, start, end, start.line_index as int)
    } else {
        range_text_upto(ls, start, end, r - 1) + seq!['\n'] + row_piece(ls, start, end, r)
    }
}

/// The text of a range from `start` to `end`.
pub open spec fn range_text(ls: Seq<Seq<Seq<char>>>, start: Location, end: Location) -> Seq<char> {
    range_text_upto(ls, start, end, end.line_index as int)
}

/// The text that the range from `s` to `e` covers on line `row`.
fn row_text(buffer: &Buffer, s: Location, e: Location, row: usize) -> (r: String)
    requires
        buffer.wf(),
        valid_location(buffer@, s),
        valid_location(buffer@, e),
        location_le(s, e),
        s.line_index <= row <= e.line_index,
    ensures
        r@ == row_piece(buffer@, s, e, row as int),
{
    if row >= buffer.height() {
        assert(line_at(buffer@, row as int).subrange(0, 0) =~= Seq::<Seq<char>>::empty());
        return String::new();
    }
    let a = if row == s.line_index {
        s.grapheme_index
    } else {
        0
    };
    let b = if row == e.line_index {
        e.grapheme_index
    } else {
        buffer.line_len(row)
    };
    buffer.line(row).text_between(a, b)
}

/// A selection: where it was started, and whether it is in progress.
#[derive(Copy, Clone, Debug, PartialEq, Eq, Structural)]
pub struct Selection {
    pub anchor: Location,
    pub active: bool,
}

impl Selection {
    /// No selection.
    pub fn default() -> (r: Selection)
        ensures
            r == (Selection { anchor: Location { grapheme_index: 0, line_index: 0 }, active: false }),
    {
        Selection { anchor: Location { grapheme_index: 0, line_index: 0 }, active: false }
    }

    /// Starts a selection at `at`.
    pub fn start_selection(&mut self, at: Location)
        ensures
            *final(self) == (Selection { anchor: at, active: true }),
    {
        self.anchor = at;
        self.active = true;
    }

    /// Ends the selection and clears its anchor.
    pub fn exit(&mut self)
        ensures
            *final(self) == (Selection {
                anchor: Location { grapheme_index: 0, line_index: 0 },
                active: false,
            }),
    {
        self.anchor = Location { grapheme_index: 0, line_index: 0 };
        self.active = false;
    }

    /// The selected range with the cursor at `cursor`, earlier end first;
    /// nothing while no selection is in progress.
    pub fn normalized_range(&self, cursor: Location) -> (r: Option<(Location, Location)>)
        ensures
            r == if self.active {
                Some(ordered(self.anchor, cursor))
            } else {
                None
            },
            r matches Some((s, e)) ==> location_le(s, e),
    {
        if !self.active {
            return None;
        }
        let a = self.anchor;
        let b = cursor;
        if a.line_index < b.line_index || (a.line_index == b.line_index && a.grapheme_index
            <= b.grapheme_index) {
            Some((a, b))
        } else {
            Some((b, a))
        }
    }

    /// Whether the grapheme at `grapheme_index` on line `line_index` is
    /// selected: from the start of the range up to, not including, its end.
    pub fn contains(&self, cursor: Location, line_index: usize, grapheme_index: usize) -> (r: bool)
        ensures
            r == (self.active && {
                let (s, e) = ordered(self.anchor, cursor);
                let p = Location { grapheme_index, line_index };
                location_le(s, p) && !location_le(e, p)
            }),
    {
        match self.normalized_range(cursor) {
            Some((s, e)) => {
                let after_start = s.line_index < line_index || (s.line_index == line_index
                    && s.grapheme_index <= grapheme_index);
                let before_end = line_index < e.line_index || (line_index == e.line_index
                    && grapheme_index < e.grapheme_index);
                after_start && before_end
            },
            None => false,
        }
    }

    /// The selected text, its lines joined by newlines; nothing while no
    /// selection is in progress.
    pub fn extract_text(&self, cursor: Location, buffer: &Buffer) -> (r: Option<String>)
        requires
            buffer.wf(),
            self.active ==> valid_location(buffer@, self.anchor),
            valid_location(buffer@, cursor),
        ensures
            r == None::<String> <==> !self.active,
            r matches Some(t) ==> t@ == {
                let (s, e) = ordered(self.anchor, cursor);
                range_text(buffer@, s, e)
            },
    {
        let (s, e) = match self.normalized_range(cursor) {
            Some(range) => range,
            None => {
                return None;
            },
        };
        let mut out = row_text(buffer, s, e, s.line_index);
        let mut row: usize = s.line_index;
        while row < e.line_index
            invariant
                buffer.wf(),
                valid_location(buffer@, s),
                valid_location(buffer@, e),
                location_le(s, e),
                s.line_index <= row <= e.line_index,
                out@ == range_text_upto(buffer@, s, e, row as int),
            decreases e.line_index - row,
        {
            row = row + 1;
            push_char(&mut out, '\n');
            let piece = row_text(buffer, s, e, row);
            out.append(piece.as_str());
        }
        Some(out)
    }
}

} // verus!
