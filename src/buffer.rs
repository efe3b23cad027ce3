//! The text buffer: an ordered, never empty sequence of lines.
use vstd::prelude::*;

verus! {

/// A line with `ch` put at offset `col`; beyond the line, the line unchanged.
pub open spec fn line_with_char(line: Seq<char>, col: int, ch: char) -> Seq<char> {
    if 0 <= col <= line.len() {
        line.insert(col, ch)
    } else {
        line
    }
}

/// The lines after `insert_char(row, col, ch)`.
pub open spec fn spec_insert_char(lines: Seq<Seq<char>>, row: int, col: int, ch: char) -> Seq<Seq<char>> {
    if 0 <= row < lines.len() && 0 <= col <= lines[row].len() {
        lines.update(row, lines[row].insert(col, ch))
    } else {
        lines
    }
}

/// The lines after `delete_char(row, col)`.
pub open spec fn spec_delete_char(lines: Seq<Seq<char>>, row: int, col: int) -> Seq<Seq<char>> {
    if 0 <= row < lines.len() && 0 <= col < lines[row].len() {
        lines.update(row, lines[row].remove(col))
    } else {
        lines
    }
}

/// The lines after `split_line(row, col)`: the line at `row` keeps what is
/// before `col` (clamped to its length), and the rest becomes a new line
/// right after it.
pub open spec fn spec_split_line(lines: Seq<Seq<char>>, row: int, col: int) -> Seq<Seq<char>> {
    if 0 <= row < lines.len() {
        let line = lines[row];
        let c = if col <= line.len() { col } else { line.len() as int };
        lines.update(row, line.subrange(0, c)).insert(row + 1, line.subrange(c, line.len() as int))
    } else {
        lines
    }
}

/// The lines after `join_with_previous(row)`: the line at `row` is appended
/// to the one before it and removed.
pub open spec fn spec_join_with_previous(lines: Seq<Seq<char>>, row: int) -> Seq<Seq<char>> {
    if 0 < row < lines.len() {
        lines.update(row - 1, lines[row - 1] + lines[row]).remove(row)
    } else {
        lines
    }
}

/// The lines of a text buffer. It always holds at least one line: an
/// empty buffer is one empty line.
pub struct TextBuffer {
    lines: Vec<Vec<char>>,
}

impl View for TextBuffer {
    type V = Seq<Seq<char>>;

    closed spec fn view(&self) -> Seq<Seq<char>> {
        self.lines@.map_values(|l: Vec<char>| l@)
    }
}

impl TextBuffer {
    pub open spec fn wf(&self) -> bool {
        self@.len() >= 1
    }

    /// One empty line.
    pub fn new() -> (r: TextBuffer)
        ensures
            r@ == seq![Seq::<char>::empty()],
            r.wf(),
    {
        let mut lines: Vec<Vec<char>> = Vec::new();
        lines.push(Vec::new());
        let r = TextBuffer { lines };
        assert(r@ =~= seq![Seq::<char>::empty()]);
        r
    }

    /// A buffer of the given lines; no lines at all give one empty line.
    pub fn from_lines(lines: Vec<Vec<char>>) -> (r: TextBuffer)
        ensures
            r.wf(),
            lines@.len() > 0 ==> r@ == lines@.map_values(|l: Vec<char>| l@),
            lines@.len() == 0 ==> r@ == seq![Seq::<char>::empty()],
    {
        if lines.len() == 0 {
            TextBuffer::new()
        } else {
            TextBuffer { lines }
        }
    }

    /// The number of lines.
    pub fn len(&self) -> (r: usize)
        ensures
            r == self@.len(),
    {
        self.lines.len()
    }

    /// The line at `row`.
    pub fn line(&self, row: usize) -> (r: &Vec<char>)
        requires
            row < self@.len(),
        ensures
            r@ == self@[row as int],
    {
        &self.lines[row]
    }

    /// The length of the line at `row`.
    pub fn line_len(&self, row: usize) -> (r: usize)
        requires
            row < self@.len(),
        ensures
            r == self@[row as int].len(),
    {
        self.lines[row].len()
    }

    /// Takes the line at `row` out, leaving an empty line in its place.
    fn take_line(&mut self, row: usize) -> (r: Vec<char>)
        requires
            row < old(self)@.len(),
        ensures
            r@ == old(self)@[row as int],
            final(self)@ == old(self)@.update(row as int, Seq::empty()),
            final(self).lines@.len() == old(self).lines@.len(),
    {
        let mut line: Vec<char> = Vec::new();
        self.lines.set_and_swap(row, &mut line);
        assert(self@ =~= old(self)@.update(row as int, Seq::empty()));
        line
    }

    /// Puts `line` at `row`.
    fn put_line(&mut self, row: usize, line: Vec<char>)
        requires
            row < old(self)@.len(),
        ensures
            final(self)@ == old(self)@.update(row as int, line@),
            final(self).lines@.len() == old(self).lines@.len(),
    {
        self.lines.set(row, line);
        assert(self@ =~= old(self)@.update(row as int, line@));
    }

    /// Puts `ch` at offset `col` of the line at `row`. Where `row` or `col`
    /// lies beyond the buffer it does nothing. The number of lines stays.
    pub fn insert_char(&mut self, row: usize, col: usize, ch: char)
        requires
            old(self).wf(),
        ensures
            final(self).wf(),
            final(self)@ == spec_insert_char(old(self)@, row as int, col as int, ch),
            final(self)@.len() == old(self)@.len(),
    {
        if row < self.lines.len() && col <= self.lines[row].len() {
            let mut line = self.take_line(row);
            line.insert(col, ch);
            self.put_line(row, line);
            assert(self@ =~= spec_insert_char(old(self)@, row as int, col as int, ch));
        }
    }

    /// Takes out the character at offset `col` of the line at `row`. Where
    /// there is none it does nothing. The number of lines stays.
    pub fn delete_char(&mut self, row: usize, col: usize)
        requires
            old(self).wf(),
        ensures
            final(self).wf(),
            final(self)@ == spec_delete_char(old(self)@, row as int, col as int),
            final(self)@.len() == old(self)@.len(),
    {
        if row < self.lines.len() && col < self.lines[row].len() {
            let mut line = self.take_line(row);
            line.remove(col);
            self.put_line(row, line);
            assert(self@ =~= spec_delete_char(old(self)@, row as int, col as int));
        }
    }

    /// Splits the line at `row` at offset `col` (clamped to the line's
    /// length): the tail becomes a new line at `row + 1`. With `row` beyond
    /// the buffer it does nothing.
    pub fn split_line(&mut self, row: usize, col: usize)
        requires
            old(self).wf(),
            old(self)@.len() < usize::MAX,
        ensures
            final(self).wf(),
            final(self)@ == spec_split_line(old(self)@, row as int, col as int),
            row < old(self)@.len() ==> final(self)@.len() == old(self)@.len() + 1,
    {
        if row < self.lines.len() {
            let mut line = self.take_line(row);
            let c = if col <= line.len() { col } else { line.len() };
            let tail = line.split_off(c);
            self.put_line(row, line);
            let ghost mid = self@;
            self.lines.insert(row + 1, tail);
            assert(self@ =~= mid.insert(row + 1, tail@));
            assert(self@ =~= spec_split_line(old(self)@, row as int, col as int));
        }
    }

    /// Appends the line at `row` to the line before it and removes it. With
    /// `row` zero or beyond the buffer it does nothing.
    pub fn join_with_previous(&mut self, row: usize)
        requires
            old(self).wf(),
        ensures
            final(self).wf(),
            final(self)@ == spec_join_with_previous(old(self)@, row as int),
            0 < row < old(self)@.len() ==> final(self)@.len() == old(self)@.len() - 1,
    {
        if 0 < row && row < self.lines.len() {
            let mut line = self.lines.remove(row);
            assert(self@ =~= old(self)@.remove(row as int));
            let mut prev = self.take_line(row - 1);
            prev.append(&mut line);
            self.put_line(row - 1, prev);
            assert(self@ =~= spec_join_with_previous(old(self)@, row as int));
        }
    }
}

/// Splitting a line and then joining the new line back to it gives the
/// buffer that was split, for any line and any offset within it.
pub proof fn lemma_split_then_join(lines: Seq<Seq<char>>, row: int, col: int)
    requires
        0 <= row < lines.len(),
        0 <= col <= lines[row].len(),
    ensures
        spec_join_with_previous(spec_split_line(lines, row, col), row + 1) == lines,
        spec_split_line(lines, row, col).len() == lines.len() + 1,
{
    let split = spec_split_line(lines, row, col);
    let line = lines[row];
    assert(split[row] == line.subrange(0, col));
    assert(split[row + 1] == line.subrange(col, line.len() as int));
    assert(line.subrange(0, col) + line.subrange(col, line.len() as int) =~= line);
    assert(spec_join_with_previous(split, row + 1) =~= lines);
}

/// A character-level edit of the buffer.
pub ghost enum CharEdit {
    Insert(int, int, char),
    Delete(int, int),
}

/// The lines after the edits, applied in order.
pub open spec fn apply_char_edits(lines: Seq<Seq<char>>, edits: Seq<CharEdit>) -> Seq<Seq<char>>
    decreases edits.len(),
{
    if edits.len() == 0 {
        lines
    } else {
        let next = match edits[0] {
            CharEdit::Insert(row, col, ch) => spec_insert_char(lines, row, col, ch),
            CharEdit::Delete(row, col) => spec_delete_char(lines, row, col),
        };
        apply_char_edits(next, edits.drop_first())
    }
}

/// No sequence of character insertions and deletions changes the number of
/// lines: only splitting and joining lines do.
pub proof fn lemma_char_edits_keep_line_count(lines: Seq<Seq<char>>, edits: Seq<CharEdit>)
    ensures
        apply_char_edits(lines, edits).len() == lines.len(),
    decreases edits.len(),
{
    if edits.len() > 0 {
        let next = match edits[0] {
            CharEdit::Insert(row, col, ch) => spec_insert_char(lines, row, col, ch),
            CharEdit::Delete(row, col) => spec_delete_char(lines, row, col),
        };
        lemma_char_edits_keep_line_count(next, edits.drop_first());
    }
}

} // verus!
