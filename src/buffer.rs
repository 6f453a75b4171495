//! The document: its lines, the file it belongs to, and whether it has
//! changed since it was last saved.

use crate::line::{graphemes_of, inserted_char, inserted_text, push_char, Line};
use crate::position::Location;
use vstd::prelude::*;

verus! {

broadcast use Seq::lemma_flatten_push;

/// The lines that have been closed by a newline among the first characters
/// `s`, and the line still open after them.
pub open spec fn split_state(s: Seq<char>) -> (Seq<Seq<char>>, Seq<char>)
    decreases s.len(),
{
    if s.len() == 0 {
        (seq![], seq![])
    } else {
        let (done, open) = split_state(s.drop_last());
        if s.last() == '\n' {
            (done.push(open), seq![])
        } else {
            (done, open.push(s.last()))
        }
    }
}

/// The lines of a text: the pieces between newlines, where a newline at the
/// very end closes the last line rather than opening an empty one.
pub open spec fn lines_of(s: Seq<char>) -> Seq<Seq<char>> {
    let (done, open) = split_state(s);
    if open.len() == 0 {
        done
    } else {
        done.push(open)
    }
}

/// The file that holds `lines`: each line followed by a newline.
pub open spec fn file_text(lines: Seq<Seq<char>>) -> Seq<char>
    decreases lines.len(),
{
    if lines.len() == 0 {
        seq![]
    } else {
        file_text(lines.drop_last()) + lines.last() + seq!['\n']
    }
}

/// Whether no line holds a newline.
pub open spec fn no_newlines(lines: Seq<Seq<char>>) -> bool {
    forall|i: int, j: int| 0 <= i < lines.len() && 0 <= j < lines[i].len() ==> lines[i][j] != '\n'
}

proof fn lemma_split_state_extend(s: Seq<char>, t: Seq<char>)
    requires
        forall|j: int| 0 <= j < t.len() ==> t[j] != '\n',
    ensures
        split_state(s + t) == (split_state(s).0, split_state(s).1 + t),
    decreases t.len(),
{
    if t.len() == 0 {
        assert(s + t =~= s);
        assert(split_state(s).1 + t =~= split_state(s).1);
    } else {
        let t0 = t.drop_last();
        lemma_split_state_extend(s, t0);
        assert((s + t).drop_last() =~= s + t0);
        assert(split_state(s).1 + t0.push(t.last()) =~= split_state(s).1 + t);
        assert(t0.push(t.last()) =~= t);
    }
}

proof fn lemma_split_file_text(lines: Seq<Seq<char>>)
    requires
        no_newlines(lines),
    ensures
        split_state(file_text(lines)) == (lines, Seq::<char>::empty()),
    decreases lines.len(),
{
    if lines.len() > 0 {
        let prev = lines.drop_last();
        let last = lines.last();
        assert(no_newlines(prev));
        lemma_split_file_text(prev);
        assert forall|j: int| 0 <= j < last.len() implies last[j] != '\n' by {
            assert(lines[lines.len() - 1][j] != '\n');
        }
        lemma_split_state_extend(file_text(prev), last);
        assert(Seq::<char>::empty() + last =~= last);
        let t = file_text(lines);
        assert(t.drop_last() =~= file_text(prev) + last);
        assert(prev.push(last) =~= lines);
    }
}

/// Writing lines out and reading the file back gives the same lines, as long
/// as no line holds a newline of its own.
pub proof fn lemma_save_load_round_trip(lines: Seq<Seq<char>>)
    requires
        no_newlines(lines),
    ensures
        lines_of(file_text(lines)) == lines,
{
    lemma_split_file_text(lines);
}

/// Splits `text` into its lines.
pub fn split_lines(text: &str) -> (r: Vec<String>)
    ensures
        r@.map_values(|s: String| s@) == lines_of(text@),
{
    let n = text.unicode_len();
    let mut done: Vec<String> = Vec::new();
    let mut open = String::new();
    let mut k: usize = 0;
    for c in iter: text.chars()
        invariant
            iter.seq() == text@,
            n == text@.len(),
            k == iter.index(),
            (done@.map_values(|s: String| s@), open@) == split_state(text@.take(k as int)),
    {
        assert(text@.take(k + 1).drop_last() =~= text@.take(k as int));
        if c == '\n' {
            done.push(open);
            open = String::new();
            assert(open@ =~= Seq::<char>::empty());
        } else {
            push_char(&mut open, c);
        }
        k = k + 1;
    }
    assert(text@.take(k as int) =~= text@);
    if !open.as_str().is_empty() {
        done.push(open);
    }
    done
}

/// Why a file could not be read or written.
#[derive(Copy, Clone, Debug, PartialEq, Eq, Structural)]
pub enum FileError {
    NotFound,
    PermissionDenied,
    Other,
}

/// The line at `i`, or an empty one past the end.
pub open spec fn line_at(ls: Seq<Seq<Seq<char>>>, i: int) -> Seq<Seq<char>> {
    if 0 <= i < ls.len() {
        ls[i]
    } else {
        seq![]
    }
}

/// Whether `at` addresses a place in `ls`: an existing line or the one just
/// past the last, and a grapheme no further than the end of that line.
pub open spec fn valid_location(ls: Seq<Seq<Seq<char>>>, at: Location) -> bool {
    at.line_index <= ls.len() && at.grapheme_index <= line_at(ls, at.line_index as int).len()
}

/// The lines after `c` is typed at `at`: into the line there, or as a new
/// last line where `at` is just past the end.
pub open spec fn lines_after_insert_char(ls: Seq<Seq<Seq<char>>>, c: char, at: Location) -> Seq<
    Seq<Seq<char>>,
> {
    let l = at.line_index as int;
    if l < ls.len() {
        ls.update(l, inserted_char(ls[l], c, at.grapheme_index as int))
    } else if l == ls.len() {
        ls.push(seq![seq![c]])
    } else {
        ls
    }
}

/// The text of each line after `c` is typed at `at`.
pub open spec fn texts_after_insert_char(ls: Seq<Seq<Seq<char>>>, c: char, at: Location) -> Seq<
    Seq<char>,
> {
    let texts = ls.map_values(|l: Seq<Seq<char>>| l.flatten());
    let l = at.line_index as int;
    if l < ls.len() {
        texts.update(l, inserted_text(ls[l], c, at.grapheme_index as int))
    } else if l == ls.len() {
        texts.push(seq![c])
    } else {
        texts
    }
}

/// Whether deleting at `at` joins the next line onto the line there.
pub open spec fn delete_joins(ls: Seq<Seq<Seq<char>>>, at: Location) -> bool {
    at.line_index + 1 < ls.len() && at.grapheme_index >= ls[at.line_index as int].len()
}

/// Whether deleting at `at` removes a grapheme of the line there.
pub open spec fn delete_removes(ls: Seq<Seq<Seq<char>>>, at: Location) -> bool {
    at.line_index < ls.len() && at.grapheme_index < ls[at.line_index as int].len()
}

/// The lines after deleting forward at `at`.
pub open spec fn lines_after_delete(ls: Seq<Seq<Seq<char>>>, at: Location) -> Seq<Seq<Seq<char>>> {
    let l = at.line_index as int;
    if delete_removes(ls, at) {
        ls.update(l, ls[l].remove(at.grapheme_index as int))
    } else if delete_joins(ls, at) {
        ls.update(l, ls[l] + ls[l + 1]).remove(l + 1)
    } else {
        ls
    }
}

/// The lines after breaking the line at `at` in two (or adding an empty
/// last line where `at` is just past the end).
pub open spec fn lines_after_insert_line(ls: Seq<Seq<Seq<char>>>, at: Location) -> Seq<
    Seq<Seq<char>>,
> {
    let l = at.line_index as int;
    if l == ls.len() {
        ls.push(seq![])
    } else if l < ls.len() {
        let a = vstd::math::min(at.grapheme_index as int, ls[l].len() as int);
        ls.update(l, ls[l].take(a)).insert(l + 1, ls[l].skip(a))
    } else {
        ls
    }
}

/// The lines after removing everything from `start` up to `end`: the line of
/// `start` keeps its head and takes the tail of the line of `end`, and the
/// lines after it up to that of `end` go.
pub open spec fn lines_after_delete_range(
    ls: Seq<Seq<Seq<char>>>,
    start: Location,
    end: Location,
) -> Seq<Seq<Seq<char>>> {
    let s = start.line_index as int;
    let e = end.line_index as int;
    if s >= ls.len() {
        ls
    } else {
        let joined = ls[s].take(start.grapheme_index as int) + line_at(ls, e).skip(
            end.grapheme_index as int,
        );
        ls.take(s).push(joined) + if e + 1 < ls.len() {
            ls.skip(e + 1)
        } else {
            seq![]
        }
    }
}

/// Whether `start` and `end` lie in `ls`, `start` first.
pub open spec fn range_in(ls: Seq<Seq<Seq<char>>>, start: Location, end: Location) -> bool {
    valid_location(ls, start) && valid_location(ls, end) && crate::position::location_le(start, end)
}

/// A line indented by two spaces.
pub open spec fn indented(l: Seq<Seq<char>>) -> Seq<Seq<char>> {
    graphemes_of(seq![' ', ' '] + l.flatten())
}

/// The lines after indenting those from `first` to `last`, both included.
pub open spec fn lines_after_indent(ls: Seq<Seq<Seq<char>>>, first: int, last: int) -> Seq<
    Seq<Seq<char>>,
> {
    Seq::new(
        ls.len(),
        |i: int|
            if first <= i <= last {
                indented(ls[i])
            } else {
                ls[i]
            },
    )
}

/// The texts of the lines that pasting `pieces` between `head` and `tail`
/// makes: the first piece follows `head`, the last is followed by `tail`.
pub open spec fn pasted_texts(head: Seq<char>, pieces: Seq<Seq<char>>, tail: Seq<char>) -> Seq<
    Seq<char>,
> {
    Seq::new(
        pieces.len(),
        |i: int|
            (if i == 0 {
                head
            } else {
                seq![]
            }) + pieces[i] + (if i == pieces.len() - 1 {
                tail
            } else {
                seq![]
            }),
    )
}

/// The text of each line of `ls`.
pub open spec fn flat(ls: Seq<Seq<Seq<char>>>) -> Seq<Seq<char>> {
    ls.map_values(|l: Seq<Seq<char>>| l.flatten())
}

/// The text of each line after indenting those from `first` to `last`.
pub open spec fn texts_after_indent(ls: Seq<Seq<Seq<char>>>, first: int, last: int) -> Seq<
    Seq<char>,
> {
    Seq::new(
        ls.len(),
        |i: int|
            if first <= i <= last {
                seq![' ', ' '] + ls[i].flatten()
            } else {
                ls[i].flatten()
            },
    )
}

/// The lines that pasting `pieces` between `head` and `tail` makes, each cut
/// into graphemes.
pub open spec fn pasted_rows(head: Seq<char>, pieces: Seq<Seq<char>>, tail: Seq<char>) -> Seq<
    Seq<Seq<char>>,
> {
    Seq::new(pieces.len(), |i: int| graphemes_of(pasted_texts(head, pieces, tail)[i]))
}

/// The text of each line after pasting `pieces` (at least one) at `at`.
pub open spec fn texts_after_paste(
    ls: Seq<Seq<Seq<char>>>,
    at: Location,
    pieces: Seq<Seq<char>>,
) -> Seq<Seq<char>> {
    let texts = ls.map_values(|l: Seq<Seq<char>>| l.flatten());
    let l = at.line_index as int;
    let line = line_at(ls, l);
    let rows = pasted_texts(
        line.take(at.grapheme_index as int).flatten(),
        pieces,
        line.skip(at.grapheme_index as int).flatten(),
    );
    if l < ls.len() {
        texts.take(l) + rows + texts.skip(l + 1)
    } else {
        texts + rows
    }
}

/// The lines after pasting `pieces` (at least one) at `at`.
pub open spec fn lines_after_paste(
    ls: Seq<Seq<Seq<char>>>,
    at: Location,
    pieces: Seq<Seq<char>>,
) -> Seq<Seq<Seq<char>>> {
    let l = at.line_index as int;
    let line = line_at(ls, l);
    let rows = pasted_rows(
        line.take(at.grapheme_index as int).flatten(),
        pieces,
        line.skip(at.grapheme_index as int).flatten(),
    );
    if l < ls.len() {
        ls.take(l) + rows + ls.skip(l + 1)
    } else {
        ls + rows
    }
}

/// The document: its lines, the file it is saved to, and whether it has
/// changed since.
pub struct Buffer {
    lines: Vec<Line>,
    filename: String,
    dirty: bool,
}

impl View for Buffer {
    type V = Seq<Seq<Seq<char>>>;

    closed spec fn view(&self) -> Seq<Seq<Seq<char>>> {
        self.lines@.map_values(|l: Line| l@)
    }
}

impl Default for Buffer {
    /// An empty document named `default.txt`.
    fn default() -> (r: Buffer)
        ensures
            r.wf(),
            r@ == Seq::<Seq<Seq<char>>>::empty(),
            r.filename()@ == "default.txt"@,
            !r.is_dirty(),
    {
        let r = Buffer { lines: Vec::new(), filename: String::from_str("default.txt"), dirty: false };
        assert(r@ =~= Seq::<Seq<Seq<char>>>::empty());
        r
    }
}

impl Buffer {
    /// Every line is well formed.
    pub closed spec fn wf(&self) -> bool {
        forall|i: int| 0 <= i < self.lines@.len() ==> (#[trigger] self.lines@[i]).wf()
    }

    /// The file the document is saved to.
    pub closed spec fn filename(&self) -> String {
        self.filename
    }

    /// Whether the document changed since it was loaded or saved.
    pub closed spec fn is_dirty(&self) -> bool {
        self.dirty
    }

    /// The text of each line.
    pub open spec fn texts(&self) -> Seq<Seq<char>> {
        self@.map_values(|l: Seq<Seq<char>>| l.flatten())
    }

    proof fn lemma_line_view(&self, i: int)
        requires
            0 <= i < self.lines@.len(),
        ensures
            self@[i] == self.lines@[i]@,
            self@.len() == self.lines@.len(),
    {
    }

    /// The document read from the file `filename`, whose contents are `text`.
    pub fn load(filename: &str, text: &str) -> (r: Buffer)
        ensures
            r.wf(),
            r@ == lines_of(text@).map_values(|t: Seq<char>| graphemes_of(t)),
            r.texts() == lines_of(text@),
            r.filename()@ == filename@,
            !r.is_dirty(),
    {
        let pieces = split_lines(text);
        let ghost ps = pieces@.map_values(|s: String| s@);
        let mut lines: Vec<Line> = Vec::new();
        let mut i: usize = 0;
        while i < pieces.len()
            invariant
                i <= pieces@.len(),
                ps == pieces@.map_values(|s: String| s@),
                lines@.len() == i,
                forall|k: int|
                    0 <= k < i ==> {
                        &&& (#[trigger] lines@[k]).wf()
                        &&& lines@[k]@ == graphemes_of(ps[k])
                        &&& lines@[k].text() == ps[k]
                    },
            decreases pieces@.len() - i,
        {
            lines.push(Line::from(pieces[i].as_str()));
            i = i + 1;
        }
        let r = Buffer { lines, filename: String::from_str(filename), dirty: false };
        assert(r@ =~= ps.map_values(|t: Seq<char>| graphemes_of(t)));
        assert(r.texts() =~= ps) by {
            assert forall|k: int| 0 <= k < ps.len() implies r.texts()[k] == ps[k] by {
                assert(r@[k] == r.lines@[k]@);
            }
        }
        r
    }

    /// The text of the file that holds the document.
    pub fn contents(&self) -> (r: String)
        requires
            self.wf(),
        ensures
            r@ == file_text(self.texts()),
    {
        let mut out = String::new();
        let mut i: usize = 0;
        while i < self.lines.len()
            invariant
                self.wf(),
                i <= self@.len(),
                out@ == file_text(self.texts().take(i as int)),
            decreases self@.len() - i,
        {
            let line = &self.lines[i];
            let t = line.text_between(0, line.grapheme_count());
            out.append(t.as_str());
            push_char(&mut out, '\n');
            proof {
                self.lemma_line_view(i as int);
                assert(line@.subrange(0, line@.len() as int) =~= line@);
                assert(self.texts().take(i + 1).drop_last() =~= self.texts().take(i as int));
            }
            i = i + 1;
        }
        assert(self.texts().take(i as int) =~= self.texts());
        out
    }

    /// Records how writing the file went: a success clears the changed flag,
    /// a failure leaves it and is handed back.
    pub fn save(&mut self, outcome: Result<(), FileError>) -> (r: Result<(), FileError>)
        ensures
            r == outcome,
            final(self)@ == old(self)@,
            final(self).wf() == old(self).wf(),
            final(self).filename() == old(self).filename(),
            final(self).is_dirty() == (old(self).is_dirty() && outcome is Err),
    {
        if outcome.is_ok() {
            self.dirty = false;
        }
        outcome
    }

    /// The file the document is saved to.
    pub fn get_filename(&self) -> (r: &String)
        ensures
            r == self.filename(),
    {
        &self.filename
    }

    /// Whether the document changed since it was loaded or saved.
    pub fn dirty(&self) -> (r: bool)
        ensures
            r == self.is_dirty(),
    {
        self.dirty
    }

    /// Whether the document has no lines.
    pub fn is_empty(&self) -> (r: bool)
        ensures
            r == (self@.len() == 0),
    {
        self.lines.is_empty()
    }

    /// The number of lines.
    pub fn height(&self) -> (r: usize)
        ensures
            r == self@.len(),
    {
        self.lines.len()
    }

    /// The line at `i`.
    pub fn line(&self, i: usize) -> (r: &Line)
        requires
            i < self@.len(),
            self.wf(),
        ensures
            r@ == self@[i as int],
            r.wf(),
    {
        &self.lines[i]
    }

    /// The number of graphemes of the line at `i`; none past the end.
    pub fn line_len(&self, i: usize) -> (r: usize)
        ensures
            r == line_at(self@, i as int).len(),
    {
        if i < self.lines.len() {
            self.lines[i].grapheme_count()
        } else {
            0
        }
    }

    /// Types `c` at `at`: into the line there, or as a new last line where
    /// `at` is just past the end; further out nothing happens.
    pub fn insert_char(&mut self, c: char, at: Location)
        requires
            old(self).wf(),
        ensures
            final(self).wf(),
            final(self)@ == lines_after_insert_char(old(self)@, c, at),
            final(self).texts() == texts_after_insert_char(old(self)@, c, at),
            final(self).filename() == old(self).filename(),
            final(self).is_dirty() == (old(self).is_dirty() || at.line_index <= old(self)@.len()),
    {
        let l = at.line_index;
        if l > self.lines.len() {
            return;
        }
        if l == self.lines.len() {
            let mut s = String::new();
            push_char(&mut s, c);
            let line = Line::from(s.as_str());
            proof {
                line.lemma_single_char(c);
            }
            self.lines.push(line);
            assert(self@ =~= old(self)@.push(seq![seq![c]]));
            assert(self.texts() =~= old(self).texts().push(seq![c]));
        } else {
            self.lines[l].insert_char(c, at.grapheme_index);
            assert(self@ =~= old(self)@.update(
                l as int,
                inserted_char(old(self)@[l as int], c, at.grapheme_index as int),
            ));
            assert(self@[l as int] == self.lines@[l as int]@);
            assert(self.texts() =~= old(self).texts().update(
                l as int,
                inserted_text(old(self)@[l as int], c, at.grapheme_index as int),
            ));
        }
        self.dirty = true;
    }

    /// Deletes forward at `at`: the grapheme there, or, at the end of a line
    /// that has a next one, joins that next line onto it. Elsewhere nothing
    /// happens.
    pub fn delete(&mut self, at: Location)
        requires
            old(self).wf(),
        ensures
            final(self).wf(),
            final(self)@ == lines_after_delete(old(self)@, at),
            final(self).filename() == old(self).filename(),
            final(self).is_dirty() == (old(self).is_dirty() || delete_removes(old(self)@, at)
                || delete_joins(old(self)@, at)),
    {
        let l = at.line_index;
        if l >= self.lines.len() {
            return;
        }
        let count = self.lines[l].grapheme_count();
        if at.grapheme_index < count {
            self.lines[l].delete(at.grapheme_index);
            assert(self@ =~= old(self)@.update(
                l as int,
                old(self)@[l as int].remove(at.grapheme_index as int),
            ));
            self.dirty = true;
        } else if l + 1 < self.lines.len() {
            let next = self.lines.remove(l + 1);
            assert(next.wf());
            self.lines[l].append(&next);
            assert(self@ =~= old(self)@.update(
                l as int,
                old(self)@[l as int] + old(self)@[l + 1],
            ).remove(l + 1));
            self.dirty = true;
        }
    }

    /// Breaks the line at `at` in two, the graphemes from `at` on going to a
    /// new line just below; just past the last line, adds an empty line.
    /// Further out nothing happens.
    pub fn insert_line(&mut self, at: Location)
        requires
            old(self).wf(),
        ensures
            final(self).wf(),
            final(self)@ == lines_after_insert_line(old(self)@, at),
            final(self).filename() == old(self).filename(),
            final(self).is_dirty() == (old(self).is_dirty() || at.line_index <= old(self)@.len()),
    {
        let l = at.line_index;
        if l == self.lines.len() {
            self.lines.push(Line::new());
            assert(self@ =~= old(self)@.push(seq![]));
            self.dirty = true;
        } else if l < self.lines.len() {
            let tail = self.lines[l].split(at.grapheme_index);
            self.lines.insert(l + 1, tail);
            proof {
                let a = vstd::math::min(at.grapheme_index as int, old(self)@[l as int].len() as int);
                assert(self@ =~= old(self)@.update(l as int, old(self)@[l as int].take(a)).insert(
                    l + 1,
                    old(self)@[l as int].skip(a),
                ));
            }
            self.dirty = true;
        }
    }

    /// Removes everything from `start` up to `end`: the line of `start` keeps
    /// what comes before it and takes what follows `end` on the line of `end`,
    /// and the lines after it up to that of `end` go.
    /// Nothing happens unless both ends lie in the document, `start` first.
    pub fn delete_range(&mut self, start: Location, end: Location)
        requires
            old(self).wf(),
        ensures
            final(self).wf(),
            final(self)@ == if range_in(old(self)@, start, end) {
                lines_after_delete_range(old(self)@, start, end)
            } else {
                old(self)@
            },
            final(self).filename() == old(self).filename(),
            final(self).is_dirty() == (old(self).is_dirty() || (range_in(old(self)@, start, end)
                && start != end && start.line_index < old(self)@.len())),
    {
        let ordered = start.line_index < end.line_index || (start.line_index == end.line_index
            && start.grapheme_index <= end.grapheme_index);
        if ordered && self.is_valid_location(start) && self.is_valid_location(end) {
            self.delete_valid_range(start, end);
        }
    }

    /// Whether `at` lies in the document.
    pub fn is_valid_location(&self, at: Location) -> (r: bool)
        ensures
            r == valid_location(self@, at),
    {
        at.line_index <= self.lines.len() && at.grapheme_index <= self.line_len(at.line_index)
    }

    fn delete_valid_range(&mut self, start: Location, end: Location)
        requires
            old(self).wf(),
            valid_location(old(self)@, start),
            valid_location(old(self)@, end),
            crate::position::location_le(start, end),
        ensures
            final(self).wf(),
            final(self)@ == lines_after_delete_range(old(self)@, start, end),
            final(self).filename() == old(self).filename(),
            final(self).is_dirty() == (old(self).is_dirty() || (start != end
                && start.line_index < old(self)@.len())),
    {
        let ghost ls = old(self)@;
        let s = start.line_index;
        let e = end.line_index;
        let n = self.lines.len();
        if s >= n {
            return;
        }
        if start == end {
            assert(ls[s as int].take(start.grapheme_index as int) + ls[s as int].skip(
                start.grapheme_index as int,
            ) =~= ls[s as int]);
            assert(ls =~= lines_after_delete_range(ls, start, end));
            return;
        }
        let tail = if e < n {
            self.lines[e].split(end.grapheme_index)
        } else {
            Line::new()
        };
        assert(tail@ == line_at(ls, e as int).skip(end.grapheme_index as int));
        let ghost mid = self@;
        let last = if e < n {
            e
        } else {
            n - 1
        };
        let mut k: usize = s + 1;
        while k <= last
            invariant
                self.wf(),
                s < last + 1 <= n,
                s + 1 <= k <= last + 1,
                mid.len() == n,
                self.lines@.len() == s + 1 + n - k,
                self@ == mid.take(s + 1) + mid.skip(k as int),
                self.filename == old(self).filename,
                self.dirty == old(self).dirty,
            decreases last + 1 - k,
        {
            let ghost prev = self@;
            self.lines.remove(s + 1);
            assert(self@ =~= prev.remove(s + 1));
            assert(self@ =~= mid.take(s + 1) + mid.skip(k + 1));
            k = k + 1;
        }
        let ghost cut = self@;
        self.lines[s].split(start.grapheme_index);
        self.lines[s].append(&tail);
        proof {
            let joined = ls[s as int].take(start.grapheme_index as int) + tail@;
            assert(self@ =~= cut.update(s as int, cut[s as int].take(start.grapheme_index as int) + tail@));
            if e == s {
                assert(mid[s as int] == ls[s as int].take(end.grapheme_index as int));
                assert(mid[s as int].take(start.grapheme_index as int) =~= ls[s as int].take(
                    start.grapheme_index as int,
                ));
            } else {
                assert(mid[s as int] == ls[s as int]);
            }
            let rest = if e + 1 < n {
                ls.skip(e + 1)
            } else {
                seq![]
            };
            assert(mid.skip(last + 1) =~= rest);
            assert(mid.take(s as int) =~= ls.take(s as int));
            assert(self@ =~= ls.take(s as int).push(joined) + rest);
        }
        self.dirty = true;
    }

    /// Deletes the graphemes in `[start, end)` of line `row`, both ends
    /// clamped to the line; nothing happens past the last line.
    pub fn delete_line(&mut self, row: usize, start: usize, end: usize)
        requires
            old(self).wf(),
        ensures
            final(self).wf(),
            final(self)@ == if row < old(self)@.len() {
                let l = old(self)@[row as int];
                let b = vstd::math::min(end as int, l.len() as int);
                let a = vstd::math::min(start as int, b);
                old(self)@.update(row as int, l.take(a) + l.skip(b))
            } else {
                old(self)@
            },
            final(self).filename() == old(self).filename(),
            final(self).is_dirty() == (old(self).is_dirty() || (row < old(self)@.len() && start
                < end && start < old(self)@[row as int].len())),
    {
        if row >= self.lines.len() {
            return;
        }
        let count = self.lines[row].grapheme_count();
        let b = if end < count {
            end
        } else {
            count
        };
        let a = if start < b {
            start
        } else {
            b
        };
        let ghost ls = self@;
        let from = Location { line_index: row, grapheme_index: a };
        let to = Location { line_index: row, grapheme_index: b };
        self.delete_valid_range(from, to);
        proof {
            let l = ls[row as int];
            let rest = if row + 1 < ls.len() {
                ls.skip(row + 1)
            } else {
                seq![]
            };
            assert(ls.update(row as int, l.take(a as int) + l.skip(b as int)) =~= ls.take(
                row as int,
            ).push(l.take(a as int) + l.skip(b as int)) + rest);
        }
    }

    /// Puts two spaces at the start of each line from `first` to `last`,
    /// both included; lines that do not exist are left out.
    pub fn indent(&mut self, first: usize, last: usize)
        requires
            old(self).wf(),
        ensures
            final(self).wf(),
            final(self)@ == lines_after_indent(old(self)@, first as int, last as int),
            final(self).texts() == texts_after_indent(old(self)@, first as int, last as int),
            final(self).filename() == old(self).filename(),
            final(self).is_dirty() == (old(self).is_dirty() || (first <= last && first
                < old(self)@.len())),
    {
        let ghost ls = old(self)@;
        let n = self.lines.len();
        let mut i: usize = first;
        while i < n && i <= last
            invariant
                self.wf(),
                self@.len() == n == ls.len(),
                first <= i,
                i <= n || i == first,
                i <= last + 1 || i == first,
                forall|j: int|
                    0 <= j < n ==> #[trigger] self@[j] == if first <= j < i {
                        indented(ls[j])
                    } else {
                        ls[j]
                    },
                forall|j: int|
                    0 <= j < n ==> #[trigger] self@[j].flatten() == if first <= j < i {
                        seq![' ', ' '] + ls[j].flatten()
                    } else {
                        ls[j].flatten()
                    },
                self.filename() == old(self).filename(),
                self.dirty == (old(self).dirty || (first < i)),
                first < i ==> (first <= last && first < n),
            decreases n - i,
        {
            let ghost prev = self@;
            let ghost before = self@[i as int];
            self.lines[i].insert_char(' ', 0);
            let ghost once = self@[i as int];
            assert(self@ =~= prev.update(i as int, once));
            self.lines[i].insert_char(' ', 0);
            assert(self@ =~= prev.update(i as int, self@[i as int]));
            assert(self@[i as int] == self.lines@[i as int]@);
            proof {
                assert(before.take(0) =~= Seq::<Seq<char>>::empty());
                assert(before.skip(0) =~= before);
                assert(once.take(0) =~= Seq::<Seq<char>>::empty());
                assert(once.skip(0) =~= once);
                assert(seq![' '] + (seq![' '] + before.flatten()) =~= seq![' ', ' '] + before.flatten());
            }
            self.dirty = true;
            i = i + 1;
        }
        assert(self@ =~= lines_after_indent(ls, first as int, last as int));
        assert(self.texts() =~= Seq::new(
            ls.len(),
            |i: int|
                if first <= i <= last {
                    seq![' ', ' '] + old(self).texts()[i]
                } else {
                    old(self).texts()[i]
                },
        ));
    }

    /// Pastes lines of text at `at`: the first joins the text before `at`,
    /// the last takes the text after it, and those between become lines of
    /// their own.
    /// Nothing happens where `at` lies outside the document or there is
    /// nothing to paste.
    pub fn paste(&mut self, at: Location, pieces: &Vec<String>)
        requires
            old(self).wf(),
        ensures
            final(self).wf(),
            final(self)@ == if valid_location(old(self)@, at) && pieces@.len() > 0 {
                lines_after_paste(old(self)@, at, pieces@.map_values(|p: String| p@))
            } else {
                old(self)@
            },
            final(self).texts() == if valid_location(old(self)@, at) && pieces@.len() > 0 {
                texts_after_paste(old(self)@, at, pieces@.map_values(|p: String| p@))
            } else {
                old(self).texts()
            },
            final(self).filename() == old(self).filename(),
            final(self).is_dirty() == (old(self).is_dirty() || (valid_location(old(self)@, at)
                && pieces@.len() > 0)),
    {
        if pieces.len() > 0 && self.is_valid_location(at) {
            self.paste_valid(at, pieces);
        }
    }

    fn paste_valid(&mut self, at: Location, pieces: &Vec<String>)
        requires
            old(self).wf(),
            valid_location(old(self)@, at),
            pieces@.len() > 0,
        ensures
            final(self).wf(),
            final(self)@ == lines_after_paste(
                old(self)@,
                at,
                pieces@.map_values(|p: String| p@),
            ),
            final(self).texts() == texts_after_paste(
                old(self)@,
                at,
                pieces@.map_values(|p: String| p@),
            ),
            final(self).filename() == old(self).filename(),
            final(self).is_dirty(),
    {
        let ghost ls = old(self)@;
        let ghost ps = pieces@.map_values(|p: String| p@);
        let l = at.line_index;
        let g = at.grapheme_index;
        let n = self.lines.len();
        let (head, tail) = if l < n {
            let count = self.lines[l].grapheme_count();
            (self.lines[l].text_between(0, g), self.lines[l].text_between(g, count))
        } else {
            (String::new(), String::new())
        };
        proof {
            let line = line_at(ls, l as int);
            assert(line.take(g as int) =~= line.subrange(0, g as int));
            assert(line.skip(g as int) =~= line.subrange(g as int, line.len() as int));
            if l >= n {
                assert(line.take(g as int) =~= Seq::<Seq<char>>::empty());
                assert(line.skip(g as int) =~= Seq::<Seq<char>>::empty());
            }
        }
        let ghost rows_spec = pasted_rows(head@, ps, tail@);
        let ghost pt = pasted_texts(head@, ps, tail@);
        let ghost ts = old(self).texts();
        let k = pieces.len();
        if l < n {
            self.lines.remove(l);
            assert(self@ =~= ls.take(l as int) + ls.skip(l + 1));
            assert(self.texts() =~= ts.take(l as int) + ts.skip(l + 1));
        }
        assert(l >= n ==> self.texts() =~= ts + pt.take(0));
        assert(l < n ==> self.texts() =~= ts.take(l as int) + pt.take(0) + ts.skip(l + 1));
        let mut i: usize = 0;
        while i < k
            invariant
                k == pieces@.len() == ps.len(),
                ps == pieces@.map_values(|p: String| p@),
                rows_spec == pasted_rows(head@, ps, tail@),
                i <= k,
                l <= n == ls.len(),
                self.wf(),
                l < n ==> self.lines@.len() == n - 1 + i,
                l >= n ==> self.lines@.len() == n + i,
                l < n ==> self@ == ls.take(l as int) + rows_spec.take(i as int) + ls.skip(l + 1),
                l >= n ==> self@ == ls + rows_spec.take(i as int),
                pt == pasted_texts(head@, ps, tail@),
                ts == ls.map_values(|l: Seq<Seq<char>>| l.flatten()),
                l < n ==> self.texts() == ts.take(l as int) + pt.take(i as int) + ts.skip(l + 1),
                l >= n ==> self.texts() == ts + pt.take(i as int),
                self.filename == old(self).filename,
            decreases k - i,
        {
            let mut t = String::new();
            if i == 0 {
                t.append(head.as_str());
            }
            t.append(pieces[i].as_str());
            if i == k - 1 {
                t.append(tail.as_str());
            }
            proof {
                let pre: Seq<char> = if i == 0 {
                    head@
                } else {
                    seq![]
                };
                let post: Seq<char> = if i == k - 1 {
                    tail@
                } else {
                    seq![]
                };
                assert(t@ =~= pre + ps[i as int] + post);
            }
            let row = Line::from(t.as_str());
            assert(t@ == pt[i as int]);
            let ghost prev = self@;
            let ghost prev_texts = self.texts();
            if l < n {
                let cur = self.lines.len();
                assert(l + i <= cur);
                self.lines.insert(l + i, row);
                assert(self@ =~= prev.insert(l + i, rows_spec[i as int]));
                assert(self@ =~= ls.take(l as int) + rows_spec.take(i + 1) + ls.skip(l + 1));
                assert(self@[l + i] == self.lines@[l + i]@);
                assert(self.texts() =~= prev_texts.insert(l + i, pt[i as int]));
                assert(self.texts() =~= ts.take(l as int) + pt.take(i + 1) + ts.skip(l + 1));
            } else {
                self.lines.push(row);
                assert(self@ =~= prev.push(rows_spec[i as int]));
                assert(self@ =~= ls + rows_spec.take(i + 1));
                assert(self@[n + i] == self.lines@[n + i]@);
                assert(self.texts() =~= prev_texts.push(pt[i as int]));
                assert(self.texts() =~= ts + pt.take(i + 1));
            }
            i = i + 1;
        }
        assert(rows_spec.take(k as int) =~= rows_spec);
        assert(pt.take(k as int) =~= pt);
        self.dirty = true;
    }
}

} // verus!
