//! What the screen shows: numbered lines and the status bar.
use vstd::prelude::*;
use crate::editor::{Editor, Mode, EditorView, visible_part};

verus! {

/// The width that line numbers are right-aligned to.
pub const LINE_NUMBER_WIDTH: usize = 4;

pub open spec fn digit_chars() -> Seq<char> {
    seq!['0', '1', '2', '3', '4', '5', '6', '7', '8', '9']
}

/// The decimal digits of `n`, without leading zeros.
pub open spec fn decimal(n: nat) -> Seq<char>
    decreases n,
{
    if n < 10 {
        seq![digit_chars()[n as int]]
    } else {
        decimal(n / 10).push(digit_chars()[(n % 10) as int])
    }
}

/// `s` right-aligned in a field of `w` characters, spaces in front.
pub open spec fn right_aligned(s: Seq<char>, w: nat) -> Seq<char> {
    if s.len() < w {
        Seq::new((w - s.len()) as nat, |i: int| ' ') + s
    } else {
        s
    }
}

/// A visible line as the screen shows it: its 1-based number right-aligned,
/// a space, and its visible part.
pub open spec fn numbered(v: EditorView, row: int) -> Seq<char> {
    right_aligned(decimal((row + 1) as nat), LINE_NUMBER_WIDTH as nat) + seq![' '] + visible_part(v, row)
}

/// The name that the status bar gives the file.
pub open spec fn file_label(file: Option<Seq<char>>) -> Seq<char> {
    match file {
        Some(name) => name,
        None => "Untitled"@,
    }
}

/// The status bar: the file, the cursor's 1-based line and column, and the
/// command line while it is open.
pub open spec fn status(v: EditorView) -> Seq<char> {
    seq![' '] + file_label(v.file) + " | Line: "@ + decimal((v.row + 1) as nat) + ", Col: "@
        + decimal((v.col + 1) as nat) + if v.mode == Mode::CommandLine {
        " :"@ + v.command
    } else {
        Seq::empty()
    }
}

fn digit(d: u128) -> (r: char)
    requires
        d < 10,
    ensures
        r == digit_chars()[d as int],
{
    match d {
        0 => '0',
        1 => '1',
        2 => '2',
        3 => '3',
        4 => '4',
        5 => '5',
        6 => '6',
        7 => '7',
        8 => '8',
        _ => '9',
    }
}

/// The decimal digits of `n`.
pub fn decimal_digits(n: u128) -> (r: Vec<char>)
    ensures
        r@ == decimal(n as nat),
    decreases n,
{
    if n < 10 {
        let mut r: Vec<char> = Vec::new();
        r.push(digit(n));
        assert(r@ =~= decimal(n as nat));
        r
    } else {
        let mut r = decimal_digits(n / 10);
        r.push(digit(n % 10));
        r
    }
}

/// Appends the characters of `s` to `r`.
fn push_str(r: &mut Vec<char>, s: &str)
    ensures
        final(r)@ == old(r)@ + s@,
{
    let n = s.unicode_len();
    let mut i: usize = 0;
    while i < n
        invariant
            n == s@.len(),
            i <= n,
            r@ == old(r)@ + s@.subrange(0, i as int),
        decreases n - i,
    {
        r.push(s.get_char(i));
        assert(r@ =~= old(r)@ + s@.subrange(0, i + 1));
        i = i + 1;
    }
    assert(s@.subrange(0, n as int) =~= s@);
}

/// Appends the characters of `s` to `r`.
fn push_chars(r: &mut Vec<char>, s: &Vec<char>)
    ensures
        final(r)@ == old(r)@ + s@,
{
    let mut i: usize = 0;
    while i < s.len()
        invariant
            i <= s@.len(),
            r@ == old(r)@ + s@.subrange(0, i as int),
        decreases s@.len() - i,
    {
        r.push(s[i]);
        assert(r@ =~= old(r)@ + s@.subrange(0, i + 1));
        i = i + 1;
    }
    assert(s@.subrange(0, s@.len() as int) =~= s@);
}

/// Line `row` as the screen shows it, behind its number.
pub fn numbered_line(editor: &Editor, row: usize) -> (r: Vec<char>)
    requires
        editor.wf(),
        row < editor@.text.len(),
    ensures
        r@ == numbered(editor@, row as int),
{
    let number = decimal_digits(row as u128 + 1);
    let mut r: Vec<char> = Vec::new();
    let pad: usize = if number.len() < LINE_NUMBER_WIDTH { LINE_NUMBER_WIDTH - number.len() } else { 0 };
    let mut k: usize = 0;
    while k < pad
        invariant
            k <= pad,
            r@ == Seq::new(k as nat, |i: int| ' '),
        decreases pad - k,
    {
        r.push(' ');
        assert(r@ =~= Seq::new((k + 1) as nat, |i: int| ' '));
        k = k + 1;
    }
    push_chars(&mut r, &number);
    assert(r@ =~= right_aligned(number@, LINE_NUMBER_WIDTH as nat));
    r.push(' ');
    let visible = editor.visible_text(row);
    push_chars(&mut r, &visible);
    r
}

/// The text of the status bar.
pub fn status_line(editor: &Editor) -> (r: Vec<char>)
    requires
        editor.wf(),
    ensures
        r@ == status(editor@),
{
    let mut r: Vec<char> = Vec::new();
    r.push(' ');
    match editor.filename() {
        Some(name) => push_str(&mut r, name.as_str()),
        None => push_str(&mut r, "Untitled"),
    }
    push_str(&mut r, " | Line: ");
    push_chars(&mut r, &decimal_digits(editor.cursor_row() as u128 + 1));
    push_str(&mut r, ", Col: ");
    push_chars(&mut r, &decimal_digits(editor.cursor_col() as u128 + 1));
    if editor.mode() == Mode::CommandLine {
        push_str(&mut r, " :");
        push_chars(&mut r, editor.command_input());
    }
    assert(r@ =~= status(editor@));
    r
}

} // verus!
