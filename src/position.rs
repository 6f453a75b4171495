//! Positions in a document and on the screen.

use vstd::prelude::*;

verus! {

/// A place in a document: a line, and a grapheme within that line.
#[derive(Copy, Clone, Debug, PartialEq, Eq, Structural)]
pub struct Location {
    pub grapheme_index: usize,
    pub line_index: usize,
}

impl Default for Location {
    fn default() -> (r: Location)
        ensures
            r == (Location { grapheme_index: 0, line_index: 0 }),
    {
        Location { grapheme_index: 0, line_index: 0 }
    }
}

/// Whether `a` comes no later than `b`, by line and then by grapheme.
pub open spec fn location_le(a: Location, b: Location) -> bool {
    a.line_index < b.line_index || (a.line_index == b.line_index && a.grapheme_index
        <= b.grapheme_index)
}

/// A width and a height, in cells.
#[derive(Copy, Clone, Debug, PartialEq, Eq, Structural)]
pub struct Size {
    pub width: usize,
    pub height: usize,
}

impl Default for Size {
    fn default() -> (r: Size)
        ensures
            r == (Size { width: 0, height: 0 }),
    {
        Size { width: 0, height: 0 }
    }
}

/// A row and a column, in cells.
#[derive(Copy, Clone, Debug, PartialEq, Eq, Structural)]
pub struct Coords {
    pub row: usize,
    pub col: usize,
}

impl Default for Coords {
    fn default() -> (r: Coords)
        ensures
            r == (Coords { row: 0, col: 0 }),
    {
        Coords { row: 0, col: 0 }
    }
}

/// `a - b` on naturals, stopping at zero.
pub open spec fn sub_floor(a: usize, b: usize) -> usize {
    if a >= b {
        (a - b) as usize
    } else {
        0
    }
}

impl Coords {
    /// The difference of two coordinates, each component stopping at zero.
    pub fn saturating_sub(self, other: Self) -> (r: Self)
        ensures
            r.row == sub_floor(self.row, other.row),
            r.col == sub_floor(self.col, other.col),
    {
        Coords { row: self.row.saturating_sub(other.row), col: self.col.saturating_sub(other.col) }
    }
}

} // verus!
