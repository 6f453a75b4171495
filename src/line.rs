//! A single line of text, stored as its grapheme clusters.

use unicode_segmentation::UnicodeSegmentation;
use unicode_width::UnicodeWidthStr;
use vstd::prelude::*;

verus! {

broadcast use Seq::lemma_flatten_push;

/// The extended grapheme clusters of a text, in order.
pub uninterp spec fn graphemes_of(s: Seq<char>) -> Seq<Seq<char>>;

/// The display width of a text in terminal columns.
pub uninterp spec fn str_width_of(s: Seq<char>) -> usize;

/// Relies on `UnicodeSegmentation::graphemes(s, true)`: the extended grapheme
/// clusters of `s`, each a non-empty slice of `s`, which in order make up `s`.
#[verifier::external_body]
fn split_graphemes(s: &str) -> (r: Vec<String>)
    ensures
        r@.map_values(|g: String| g@) == graphemes_of(s@),
        r@.map_values(|g: String| g@).flatten() == s@,
        forall|i: int| 0 <= i < r@.len() ==> r@[i]@.len() > 0,
{
    s.graphemes(true).map(String::from).collect()
}

/// Relies on `UnicodeWidthStr::width`: the display width of `s`.
#[verifier::external_body]
fn str_width(s: &str) -> (r: usize)
    ensures
        r == str_width_of(s@),
{
    s.width()
}

/// Relies on `String::push`: `c` is added at the end of `s`.
#[verifier::external_body]
pub(crate) fn push_char(s: &mut String, c: char)
    ensures
        final(s)@ == old(s)@.push(c),
{
    s.push(c);
}

/// The number of columns a grapheme takes on screen: one for narrow and
/// zero-width clusters, two for wide ones.
pub open spec fn cell_width(g: Seq<char>) -> nat {
    if str_width_of(g) >= 2 {
        2
    } else {
        1
    }
}

/// The total width of the first `i` graphemes of `l`.
pub open spec fn prefix_width(l: Seq<Seq<char>>, i: int) -> nat
    decreases i,
{
    if i <= 0 {
        0
    } else {
        prefix_width(l, i - 1) + cell_width(l[i - 1])
    }
}

/// Whether the grapheme at `i` lies wholly inside the columns `[start, end)`.
pub open spec fn inside_columns(l: Seq<Seq<char>>, i: int, start: int, end: int) -> bool {
    start <= prefix_width(l, i) && prefix_width(l, i + 1) <= end
}

/// The text of those of the first `n` graphemes of `l` whose index lies in
/// `[lo, hi)` and which lie wholly inside the columns `[start, end)`.
pub open spec fn visible_text(
    l: Seq<Seq<char>>,
    n: int,
    start: int,
    end: int,
    lo: int,
    hi: int,
) -> Seq<char>
    decreases n,
{
    if n <= 0 {
        seq![]
    } else if lo <= n - 1 < hi && inside_columns(l, n - 1, start, end) {
        visible_text(l, n - 1, start, end, lo, hi) + l[n - 1]
    } else {
        visible_text(l, n - 1, start, end, lo, hi)
    }
}

/// Widths only grow as more graphemes are counted.
pub proof fn lemma_prefix_width_monotonic(l: Seq<Seq<char>>, i: int, j: int)
    requires
        i <= j,
    ensures
        prefix_width(l, i) <= prefix_width(l, j),
    decreases j - i,
{
    if i < j {
        lemma_prefix_width_monotonic(l, i, j - 1);
    }
}

/// The text of `l` with `c` put before the grapheme at `at` (at the end
/// where `at` is past it).
pub open spec fn inserted_text(l: Seq<Seq<char>>, c: char, at: int) -> Seq<char> {
    let a = vstd::math::min(at, l.len() as int);
    l.take(a).flatten() + seq![c] + l.skip(a).flatten()
}

/// The graphemes of `l` after `c` is put before the grapheme at `at` and
/// the text is cut into graphemes anew.
pub open spec fn inserted_char(l: Seq<Seq<char>>, c: char, at: int) -> Seq<Seq<char>> {
    graphemes_of(inserted_text(l, c, at))
}

proof fn lemma_flatten_len(gs: Seq<Seq<char>>)
    requires
        forall|i: int| 0 <= i < gs.len() ==> gs[i].len() > 0,
    ensures
        gs.flatten().len() >= gs.len(),
    decreases gs.len(),
{
    if gs.len() > 0 {
        lemma_flatten_len(gs.drop_first());
    }
}

/// One grapheme cluster with its display width.
pub struct TextFragment {
    pub grapheme: String,
    pub width: usize,
}

/// A line of text as a sequence of grapheme clusters.
pub struct Line {
    fragments: Vec<TextFragment>,
}

impl View for Line {
    type V = Seq<Seq<char>>;

    closed spec fn view(&self) -> Seq<Seq<char>> {
        self.fragments@.map_values(|f: TextFragment| f.grapheme@)
    }
}

fn fragment(grapheme: String) -> (r: TextFragment)
    ensures
        r.grapheme == grapheme,
        r.width as nat == cell_width(grapheme@),
{
    let w = str_width(grapheme.as_str());
    let width: usize = if w >= 2 {
        2
    } else {
        1
    };
    TextFragment { grapheme, width }
}

impl Line {
    /// Every grapheme is non-empty and carries its own display width.
    pub closed spec fn wf(&self) -> bool {
        forall|i: int|
            0 <= i < self.fragments@.len() ==> {
                &&& self.fragments@[i].grapheme@.len() > 0
                &&& self.fragments@[i].width as nat == cell_width(self.fragments@[i].grapheme@)
            }
    }

    /// The text of the line.
    pub open spec fn text(&self) -> Seq<char> {
        self@.flatten()
    }

    /// A well-formed line whose text is one character is that character alone.
    pub proof fn lemma_single_char(&self, c: char)
        requires
            self.wf(),
            self.text() == seq![c],
        ensures
            self@ == seq![seq![c]],
    {
        let gs = self@;
        assert forall|i: int| 0 <= i < gs.len() implies gs[i].len() > 0 by {
            assert(gs[i] == self.fragments@[i].grapheme@);
        }
        lemma_flatten_len(gs);
        if gs.len() == 0 {
            assert(gs.flatten() =~= Seq::<char>::empty());
        }
        gs.lemma_flatten_singleton();
        assert(gs =~= seq![seq![c]]);
    }

    /// An empty line.
    pub fn new() -> (r: Line)
        ensures
            r.wf(),
            r@ == Seq::<Seq<char>>::empty(),
    {
        let r = Line { fragments: Vec::new() };
        assert(r@ =~= Seq::<Seq<char>>::empty());
        r
    }

    /// The line made of the grapheme clusters of `text`.
    pub fn from(text: &str) -> (r: Line)
        ensures
            r.wf(),
            r@ == graphemes_of(text@),
            r.text() == text@,
    {
        let gs = split_graphemes(text);
        let ghost gv = gs@.map_values(|g: String| g@);
        let mut fragments: Vec<TextFragment> = Vec::new();
        let mut i: usize = 0;
        while i < gs.len()
            invariant
                i <= gs@.len(),
                gv == gs@.map_values(|g: String| g@),
                forall|k: int| 0 <= k < gs@.len() ==> gs@[k]@.len() > 0,
                fragments@.len() == i,
                forall|k: int|
                    0 <= k < i ==> {
                        &&& (#[trigger] fragments@[k]).grapheme@ == gv[k]
                        &&& fragments@[k].grapheme@ == gs@[k]@
                        &&& fragments@[k].width as nat == cell_width(gv[k])
                    },
            decreases gs@.len() - i,
        {
            let g = gs[i].clone();
            fragments.push(fragment(g));
            i = i + 1;
        }
        let r = Line { fragments };
        assert(r@ =~= gv);
        r
    }

    /// The text of the line.
    pub fn to_text(&self) -> (r: String)
        ensures
            r@ == self.text(),
    {
        let r = self.text_between(0, self.fragments.len());
        assert(self@.subrange(0, self@.len() as int) =~= self@);
        r
    }

    /// The number of grapheme clusters.
    pub fn grapheme_count(&self) -> (r: usize)
        ensures
            r == self@.len(),
    {
        self.fragments.len()
    }

    /// The display width of the graphemes before `grapheme_index` (all of
    /// them where it is past the end), saturating at `usize::MAX`.
    pub fn width_until(&self, grapheme_index: usize) -> (r: usize)
        requires
            self.wf(),
        ensures
            r == vstd::math::min(
                prefix_width(self@, vstd::math::min(grapheme_index as int, self@.len() as int)) as int,
                usize::MAX as int,
            ),
    {
        let n = if grapheme_index < self.fragments.len() {
            grapheme_index
        } else {
            self.fragments.len()
        };
        let mut sum: usize = 0;
        let mut i: usize = 0;
        while i < n
            invariant
                self.wf(),
                n <= self@.len(),
                i <= n,
                sum == vstd::math::min(prefix_width(self@, i as int) as int, usize::MAX as int),
            decreases n - i,
        {
            let w = self.fragments[i].width;
            assert(self@[i as int] == self.fragments@[i as int].grapheme@);
            sum = sum.saturating_add(w);
            i = i + 1;
        }
        sum
    }

    /// The text of the graphemes in `[start, end)`, both clamped to the line.
    pub fn text_between(&self, start: usize, end: usize) -> (r: String)
        ensures
            r@ == self@.subrange(
                vstd::math::min(start as int, vstd::math::min(end as int, self@.len() as int)),
                vstd::math::min(end as int, self@.len() as int),
            ).flatten(),
    {
        let b = if end < self.fragments.len() {
            end
        } else {
            self.fragments.len()
        };
        let a = if start < b {
            start
        } else {
            b
        };
        let mut out = String::new();
        let mut i: usize = a;
        while i < b
            invariant
                a <= i <= b,
                b <= self@.len(),
                out@ == self@.subrange(a as int, i as int).flatten(),
            decreases b - i,
        {
            out.append(self.fragments[i].grapheme.as_str());
            assert(self@.subrange(a as int, i + 1) =~= self@.subrange(a as int, i as int).push(
                self@[i as int],
            ));
            i = i + 1;
        }
        out
    }

    /// Inserts `c` before the grapheme at `at` (at the end where `at` is past
    /// it) and cuts the resulting text into graphemes anew, so that a
    /// combining character joins the cluster before it.
    pub fn insert_char(&mut self, c: char, at: usize)
        ensures
            final(self).wf(),
            final(self)@ == inserted_char(old(self)@, c, at as int),
            final(self).text() == inserted_text(old(self)@, c, at as int),
    {
        let n = self.fragments.len();
        let a = if at < n {
            at
        } else {
            n
        };
        let mut s = self.text_between(0, a);
        push_char(&mut s, c);
        let rest = self.text_between(a, n);
        s.append(rest.as_str());
        assert(s@ =~= self@.take(a as int).flatten() + seq![c] + self@.skip(a as int).flatten()) by {
            assert(self@.take(a as int) =~= self@.subrange(0, a as int));
            assert(self@.skip(a as int) =~= self@.subrange(a as int, n as int));
        }
        *self = Line::from(s.as_str());
    }

    /// Removes the grapheme at `at`; nothing happens where there is none.
    pub fn delete(&mut self, at: usize)
        requires
            old(self).wf(),
        ensures
            final(self).wf(),
            final(self)@ == if at < old(self)@.len() {
                old(self)@.remove(at as int)
            } else {
                old(self)@
            },
    {
        if at < self.fragments.len() {
            self.fragments.remove(at);
            assert(self@ =~= old(self)@.remove(at as int));
        }
    }

    /// Keeps the graphemes before `at` and returns the rest as a new line.
    pub fn split(&mut self, at: usize) -> (r: Line)
        requires
            old(self).wf(),
        ensures
            final(self).wf(),
            r.wf(),
            final(self)@ == old(self)@.take(vstd::math::min(at as int, old(self)@.len() as int)),
            r@ == old(self)@.skip(vstd::math::min(at as int, old(self)@.len() as int)),
    {
        let n = self.fragments.len();
        let a = if at < n {
            at
        } else {
            n
        };
        let tail = self.fragments.split_off(a);
        let r = Line { fragments: tail };
        assert(self@ =~= old(self)@.take(a as int));
        assert(r@ =~= old(self)@.skip(a as int));
        r
    }

    /// Adds the graphemes of `other` at the end of this line.
    pub fn append(&mut self, other: &Line)
        requires
            old(self).wf(),
            other.wf(),
        ensures
            final(self).wf(),
            final(self)@ == old(self)@ + other@,
    {
        let mut i: usize = 0;
        while i < other.fragments.len()
            invariant
                self.wf(),
                other.wf(),
                i <= other@.len(),
                self@ == old(self)@ + other@.take(i as int),
            decreases other@.len() - i,
        {
            let f = &other.fragments[i];
            self.fragments.push(TextFragment { grapheme: f.grapheme.clone(), width: f.width });
            assert(self@ =~= old(self)@ + other@.take(i as int) + seq![other@[i as int]]);
            assert(other@.take(i + 1) =~= other@.take(i as int).push(other@[i as int]));
            assert(self@ =~= old(self)@ + other@.take(i + 1));
            i = i + 1;
        }
        assert(other@.take(other@.len() as int) =~= other@);
    }

    /// The text of the graphemes that lie wholly inside the display columns
    /// `[start, end)`; a wide grapheme that straddles either edge is left out.
    pub fn get_visible_graphemes(&self, start: usize, end: usize) -> (r: String)
        requires
            self.wf(),
        ensures
            r@ == visible_text(self@, self@.len() as int, start as int, end as int, 0, self@.len() as int),
    {
        self.visible_slice(start, end, 0, self.fragments.len())
    }

    /// The text of the graphemes with an index in `[lo, hi)` that lie wholly
    /// inside the display columns `[start, end)`.
    pub fn visible_slice(&self, start: usize, end: usize, lo: usize, hi: usize) -> (r: String)
        requires
            self.wf(),
        ensures
            r@ == visible_text(self@, self@.len() as int, start as int, end as int, lo as int, hi as int),
    {
        let mut out = String::new();
        let mut col: usize = 0;
        let mut past = false;
        let mut i: usize = 0;
        while i < self.fragments.len()
            invariant
                self.wf(),
                i <= self@.len(),
                !past ==> col == prefix_width(self@, i as int),
                !past ==> col <= end,
                past ==> prefix_width(self@, i as int) > end,
                out@ == visible_text(self@, i as int, start as int, end as int, lo as int, hi as int),
            decreases self@.len() - i,
        {
            let f = &self.fragments[i];
            assert(self@[i as int] == f.grapheme@);
            if past {
                proof {
                    lemma_prefix_width_monotonic(self@, i as int, i + 1);
                }
            } else if f.width <= end - col {
                if col >= start && lo <= i && i < hi {
                    out.append(f.grapheme.as_str());
                }
                col = col + f.width;
            } else {
                past = true;
            }
            i = i + 1;
        }
        out
    }
}

} // verus!
