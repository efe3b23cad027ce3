//! The file format: plain text, each line ended by a line feed.
use vstd::prelude::*;
use crate::buffer::TextBuffer;

verus! {

/// `line` without one carriage return at its end.
pub open spec fn strip_cr(line: Seq<char>) -> Seq<char> {
    if line.len() > 0 && line.last() == '\r' {
        line.drop_last()
    } else {
        line
    }
}

/// `t` cut at each line feed; a carriage return just before a line feed
/// belongs to the line ending.
pub open spec fn pieces(t: Seq<char>) -> Seq<Seq<char>>
    decreases t.len(),
{
    if t.len() == 0 {
        seq![Seq::empty()]
    } else {
        let p = pieces(t.drop_last());
        if t.last() == '\n' {
            p.update(p.len() - 1, strip_cr(p.last())).push(Seq::empty())
        } else {
            p.update(p.len() - 1, p.last().push(t.last()))
        }
    }
}

/// The lines of a file's text. The last line needs no line ending; an
/// empty text is one empty line.
pub open spec fn parse_lines(t: Seq<char>) -> Seq<Seq<char>> {
    if t.len() > 0 && t.last() == '\n' {
        pieces(t).drop_last()
    } else {
        pieces(t)
    }
}

/// The text of a file that holds `lines`: each line and a line feed.
pub open spec fn join_lines(lines: Seq<Seq<char>>) -> Seq<char>
    decreases lines.len(),
{
    if lines.len() == 0 {
        Seq::empty()
    } else {
        join_lines(lines.drop_last()) + lines.last().push('\n')
    }
}

proof fn lemma_pieces_len(t: Seq<char>)
    ensures
        pieces(t).len() >= 1,
        t.len() > 0 && t.last() == '\n' ==> pieces(t).last() == Seq::<char>::empty(),
        t.len() > 0 && t.last() == '\n' ==> pieces(t).len() >= 2,
    decreases t.len(),
{
    if t.len() > 0 {
        lemma_pieces_len(t.drop_last());
    }
}

/// The lines of a file's text.
pub fn lines_from_text(text: &Vec<char>) -> (r: Vec<Vec<char>>)
    ensures
        r@.map_values(|l: Vec<char>| l@) == parse_lines(text@),
        r@.len() >= 1,
{
    let n = text.len();
    let mut done: Vec<Vec<char>> = Vec::new();
    let mut cur: Vec<char> = Vec::new();
    let mut i: usize = 0;
    assert(text@.subrange(0, 0) =~= Seq::<char>::empty());
    assert(done@.map_values(|l: Vec<char>| l@).push(cur@) =~= pieces(Seq::empty()));
    while i < n
        invariant
            n == text@.len(),
            i <= n,
            done@.map_values(|l: Vec<char>| l@).push(cur@) == pieces(text@.subrange(0, i as int)),
            i > 0 && text@[i - 1] == '\n' ==> cur@.len() == 0,
            done@.len() <= i,
        decreases n - i,
    {
        let ghost prefix = text@.subrange(0, i as int);
        let ghost next = text@.subrange(0, i + 1);
        assert(next.drop_last() =~= prefix);
        let ghost p = pieces(prefix);
        let c = text[i];
        if c == '\n' {
            if cur.len() > 0 && cur[cur.len() - 1] == '\r' {
                cur.pop();
            }
            assert(cur@ == strip_cr(p.last()));
            done.push(cur);
            cur = Vec::new();
            assert(done@.map_values(|l: Vec<char>| l@).push(cur@) =~= p.update(
                p.len() - 1,
                strip_cr(p.last()),
            ).push(Seq::empty()));
        } else {
            cur.push(c);
            assert(done@.map_values(|l: Vec<char>| l@).push(cur@) =~= p.update(
                p.len() - 1,
                p.last().push(c),
            ));
        }
        i = i + 1;
    }
    assert(text@.subrange(0, n as int) =~= text@);
    proof { lemma_pieces_len(text@); }
    if n > 0 && text[n - 1] == '\n' {
        assert(done@.map_values(|l: Vec<char>| l@) =~= pieces(text@).drop_last());
        done
    } else {
        done.push(cur);
        done
    }
}

/// The text of a file that holds the buffer's lines.
pub fn text_of(buffer: &TextBuffer) -> (r: Vec<char>)
    ensures
        r@ == join_lines(buffer@),
{
    let n = buffer.len();
    let mut r: Vec<char> = Vec::new();
    let mut row: usize = 0;
    while row < n
        invariant
            n == buffer@.len(),
            row <= n,
            r@ == join_lines(buffer@.subrange(0, row as int)),
        decreases n - row,
    {
        let line = buffer.line(row);
        let ghost start = r@;
        let mut k: usize = 0;
        while k < line.len()
            invariant
                line@ == buffer@[row as int],
                k <= line@.len(),
                r@ == start + line@.subrange(0, k as int),
            decreases line@.len() - k,
        {
            r.push(line[k]);
            assert(r@ =~= start + line@.subrange(0, k + 1));
            k = k + 1;
        }
        r.push('\n');
        assert(buffer@.subrange(0, row + 1).drop_last() =~= buffer@.subrange(0, row as int));
        assert(r@ =~= start + line@.push('\n'));
        row = row + 1;
    }
    assert(buffer@.subrange(0, n as int) =~= buffer@);
    r
}

/// Whether `line` can be written as one line of a file and read back: it
/// holds no line feed and does not end with a carriage return.
pub open spec fn storable(line: Seq<char>) -> bool {
    &&& forall|i: int| 0 <= i < line.len() ==> line[i] != '\n'
    &&& !(line.len() > 0 && line.last() == '\r')
}

proof fn lemma_pieces_append(t: Seq<char>, s: Seq<char>)
    requires
        forall|i: int| 0 <= i < s.len() ==> s[i] != '\n',
    ensures
        pieces(t + s) == pieces(t).update(pieces(t).len() - 1, pieces(t).last() + s),
    decreases s.len(),
{
    lemma_pieces_len(t);
    if s.len() == 0 {
        assert(t + s =~= t);
        assert(pieces(t).last() + s =~= pieces(t).last());
        assert(pieces(t).update(pieces(t).len() - 1, pieces(t).last()) =~= pieces(t));
    } else {
        let init = s.drop_last();
        lemma_pieces_append(t, init);
        assert((t + s).drop_last() =~= t + init);
        assert((t + s).last() == s.last());
        assert(pieces(t).last() + init + seq![s.last()] =~= pieces(t).last() + s);
        assert((pieces(t).last() + init).push(s.last()) =~= pieces(t).last() + s);
        assert(pieces(t + s) =~= pieces(t).update(pieces(t).len() - 1, pieces(t).last() + s));
    }
}

proof fn lemma_pieces_of_join(lines: Seq<Seq<char>>)
    requires
        forall|i: int| 0 <= i < lines.len() ==> storable(#[trigger] lines[i]),
    ensures
        pieces(join_lines(lines)) == lines.push(Seq::empty()),
    decreases lines.len(),
{
    if lines.len() == 0 {
        assert(pieces(join_lines(lines)) =~= lines.push(Seq::empty()));
    } else {
        let init = lines.drop_last();
        let last = lines.last();
        assert(storable(lines[lines.len() - 1]));
        lemma_pieces_of_join(init);
        let t = join_lines(init);
        lemma_pieces_append(t, last);
        let whole = join_lines(lines);
        assert(whole =~= (t + last).push('\n'));
        assert(whole.drop_last() =~= t + last);
        assert(Seq::<char>::empty() + last =~= last);
        assert(pieces(t + last) =~= init.push(last));
        assert(init.push(last) =~= lines);
    }
}

/// Writing lines to a file and reading the file back gives the same
/// lines, as long as there is at least one and each is storable.
pub proof fn lemma_parse_join(lines: Seq<Seq<char>>)
    requires
        lines.len() >= 1,
        forall|i: int| 0 <= i < lines.len() ==> storable(#[trigger] lines[i]),
    ensures
        parse_lines(join_lines(lines)) == lines,
{
    lemma_pieces_of_join(lines);
    let t = join_lines(lines);
    assert(t == join_lines(lines.drop_last()) + lines.last().push('\n'));
    assert(t.last() == '\n');
    assert(lines.push(Seq::empty()).drop_last() =~= lines);
}

} // verus!
