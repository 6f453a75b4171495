//! The status bar at the bottom of the screen.

use crate::editor::{same_status, DocumentStatus};
use crate::line::push_char;
use crate::position::{sub_floor, Size};
use vstd::prelude::*;

verus! {

/// `n` spaces.
pub open spec fn spaces(n: int) -> Seq<char> {
    Seq::new(vstd::math::max(n, 0) as nat, |k: int| ' ')
}

/// The decimal digit `d`.
pub open spec fn digit_char(d: nat) -> char {
    "0123456789"@[d as int]
}

/// The decimal numeral of `n`.
pub open spec fn decimal(n: nat) -> Seq<char>
    decreases n,
{
    if n < 10 {
        seq![digit_char(n)]
    } else {
        decimal(n / 10) + seq![digit_char(n % 10)]
    }
}

/// `s` followed by spaces up to `width` characters.
pub open spec fn pad_right(s: Seq<char>, width: int) -> Seq<char> {
    s + spaces(width - s.len())
}

/// `s` preceded by spaces up to `width` characters.
pub open spec fn pad_left(s: Seq<char>, width: int) -> Seq<char> {
    spaces(width - s.len()) + s
}

/// `s` centred in `width` characters, an odd space going to the right.
pub open spec fn pad_center(s: Seq<char>, width: int) -> Seq<char> {
    let room = vstd::math::max(width - s.len(), 0);
    spaces(room / 2) + s + spaces(room - room / 2)
}

/// The status line for `status` with columns `width` characters wide: the
/// mode on the left, the file name (marked `*` when changed) in the middle,
/// and the line position on the right.
pub open spec fn status_line(status: DocumentStatus, width: int) -> Seq<char> {
    let line_idx = vstd::math::min(status.current_line_index + 1, usize::MAX as int) as nat;
    let total = vstd::math::min(status.total_lines + 1, usize::MAX as int) as nat;
    let fileinfo = if status.is_modified {
        status.filename@ + seq!['*']
    } else {
        status.filename@
    };
    pad_right(status.bmode_string@, width) + pad_center(fileinfo, width) + pad_left(
        decimal(line_idx) + seq!['/'] + decimal(total),
        width,
    )
}

fn digit(d: usize) -> (r: char)
    requires
        d < 10,
    ensures
        r == digit_char(d as nat),
{
    let digits = "0123456789";
    proof {
        reveal_strlit("0123456789");
    }
    digits.get_char(d)
}

fn decimal_string(n: usize) -> (r: String)
    ensures
        r@ == decimal(n as nat),
    decreases n,
{
    if n < 10 {
        let mut s = String::new();
        push_char(&mut s, digit(n));
        assert(s@ =~= seq![digit_char(n as nat)]);
        s
    } else {
        let mut s = decimal_string(n / 10);
        push_char(&mut s, digit(n % 10));
        s
    }
}

fn push_spaces(s: &mut String, n: usize)
    ensures
        final(s)@ == old(s)@ + spaces(n as int),
{
    let mut k: usize = 0;
    while k < n
        invariant
            k <= n,
            s@ == old(s)@ + spaces(k as int),
        decreases n - k,
    {
        push_char(s, ' ');
        assert(old(s)@ + spaces(k + 1) =~= (old(s)@ + spaces(k as int)).push(' '));
        k = k + 1;
    }
}

fn padded_right(s: &String, width: usize) -> (r: String)
    ensures
        r@ == pad_right(s@, width as int),
{
    let mut out = s.clone();
    let len = s.as_str().unicode_len();
    push_spaces(&mut out, width.saturating_sub(len));
    assert(spaces(sub_floor(width, len) as int) =~= spaces(width - s@.len()));
    out
}

fn padded_left(s: &String, width: usize) -> (r: String)
    ensures
        r@ == pad_left(s@, width as int),
{
    let mut out = String::new();
    let len = s.as_str().unicode_len();
    push_spaces(&mut out, width.saturating_sub(len));
    assert(spaces(sub_floor(width, len) as int) =~= spaces(width - s@.len()));
    out.append(s.as_str());
    assert(out@ =~= pad_left(s@, width as int));
    out
}

fn padded_center(s: &String, width: usize) -> (r: String)
    ensures
        r@ == pad_center(s@, width as int),
{
    let mut out = String::new();
    let len = s.as_str().unicode_len();
    let room = width.saturating_sub(len);
    push_spaces(&mut out, room / 2);
    out.append(s.as_str());
    push_spaces(&mut out, room - room / 2);
    assert(out@ =~= pad_center(s@, width as int));
    out
}

fn status_text(status: &DocumentStatus, width: usize) -> (r: String)
    ensures
        r@ == status_line(*status, width as int),
{
    let line_idx = status.current_line_index.saturating_add(1);
    let total_lines = status.total_lines.saturating_add(1);
    let mut lines_info = decimal_string(line_idx);
    push_char(&mut lines_info, '/');
    let total = decimal_string(total_lines);
    lines_info.append(total.as_str());
    let mut fileinfo = status.filename.clone();
    if status.is_modified {
        push_char(&mut fileinfo, '*');
    }
    let mut out = padded_right(&status.bmode_string, width);
    let middle = padded_center(&fileinfo, width);
    out.append(middle.as_str());
    let right = padded_left(&lines_info, width);
    out.append(right.as_str());
    out
}

/// The bottom line of the screen, redrawn only when what it shows changes.
pub struct StatusBar {
    current_status: DocumentStatus,
    needs_redraw: bool,
    width: usize,
    position_y: usize,
}

impl StatusBar {
    /// What the bar shows.
    pub closed spec fn status(&self) -> DocumentStatus {
        self.current_status
    }

    /// Whether the bar has to be drawn again.
    pub closed spec fn redraw_pending(&self) -> bool {
        self.needs_redraw
    }

    /// The width of the screen.
    pub closed spec fn width(&self) -> usize {
        self.width
    }

    /// The screen row the bar is drawn on.
    pub closed spec fn row(&self) -> usize {
        self.position_y
    }

    /// A bar on the last row of a screen of `size`, with nothing to report
    /// yet.
    pub fn new(size: Size) -> (r: StatusBar)
        ensures
            r.redraw_pending(),
            r.width() == size.width,
            r.row() == sub_floor(size.height, 1),
            r.status().total_lines == 0,
            r.status().current_line_index == 0,
            !r.status().is_modified,
            r.status().filename@ == Seq::<char>::empty(),
            r.status().bmode_string@ == Seq::<char>::empty(),
    {
        StatusBar {
            current_status: DocumentStatus::default(),
            needs_redraw: true,
            width: size.width,
            position_y: size.height.saturating_sub(1),
        }
    }

    /// Moves the bar to the last row of a screen of the new `size`.
    pub fn resize(&mut self, size: Size)
        ensures
            final(self).redraw_pending(),
            final(self).width() == size.width,
            final(self).row() == sub_floor(size.height, 1),
            final(self).status() == old(self).status(),
    {
        self.width = size.width;
        self.position_y = size.height.saturating_sub(1);
        self.needs_redraw = true;
    }

    /// Takes on `status`, to be drawn where it differs from what the bar
    /// shows.
    pub fn update_status(&mut self, status: DocumentStatus)
        ensures
            final(self).width() == old(self).width(),
            final(self).row() == old(self).row(),
            if same_status(old(self).status(), status) {
                &&& final(self).status() == old(self).status()
                &&& final(self).redraw_pending() == old(self).redraw_pending()
            } else {
                &&& final(self).status() == status
                &&& final(self).redraw_pending()
            },
    {
        if status != self.current_status {
            self.current_status = status;
            self.needs_redraw = true;
        }
    }

    /// The row and the text to print there, where the bar has to be drawn
    /// again; nothing otherwise.
    pub fn render(&mut self) -> (r: Option<(usize, String)>)
        ensures
            final(self).status() == old(self).status(),
            final(self).width() == old(self).width(),
            final(self).row() == old(self).row(),
            !final(self).redraw_pending(),
            if old(self).redraw_pending() {
                (r matches Some((row, text)) && row == old(self).row() && text@ == status_line(
                    old(self).status(),
                    old(self).width() as int / 3,
                ))
            } else {
                (r is None)
            },
    {
        if !self.needs_redraw {
            return None;
        }
        let out = status_text(&self.current_status, self.width / 3);
        let row = self.position_y;
        self.needs_redraw = false;
        Some((row, out))
    }
}

} // verus!
