//! The colon-command line: trimming, recognising and concluding commands.
use vstd::prelude::*;

verus! {

/// Whether a character has Unicode's White_Space property: the controls
/// U+0009 to U+000D, the space, U+0085, the no-break space, the Ogham
/// space mark, the spaces U+2000 to U+200A, the line and paragraph
/// separators, the narrow no-break space, the medium mathematical space
/// and the ideographic space.
pub open spec fn is_space(c: char) -> bool {
    let n = c as u32;
    ||| 0x09 <= n <= 0x0D
    ||| n == 0x20
    ||| n == 0x85
    ||| n == 0xA0
    ||| n == 0x1680
    ||| 0x2000 <= n <= 0x200A
    ||| n == 0x2028
    ||| n == 0x2029
    ||| n == 0x202F
    ||| n == 0x205F
    ||| n == 0x3000
}

/// Whether `c` is white space.
pub fn whitespace(c: char) -> (r: bool)
    ensures
        r == is_space(c),
{
    let n = c as u32;
    (0x09 <= n && n <= 0x0D) || n == 0x20 || n == 0x85 || n == 0xA0 || n == 0x1680 || (0x2000
        <= n && n <= 0x200A) || n == 0x2028 || n == 0x2029 || n == 0x202F || n == 0x205F || n
        == 0x3000
}

/// `s` without its leading white space.
pub open spec fn trim_start(s: Seq<char>) -> Seq<char>
    decreases s.len(),
{
    if s.len() > 0 && is_space(s[0]) {
        trim_start(s.drop_first())
    } else {
        s
    }
}

/// `s` without its trailing white space.
pub open spec fn trim_end(s: Seq<char>) -> Seq<char>
    decreases s.len(),
{
    if s.len() > 0 && is_space(s.last()) {
        trim_end(s.drop_last())
    } else {
        s
    }
}

/// `s` without white space at either end.
pub open spec fn trim(s: Seq<char>) -> Seq<char> {
    trim_end(trim_start(s))
}

/// The commands of the command line.
#[derive(Clone, Copy, Debug, PartialEq, Eq, Structural)]
pub enum Command {
    /// `q`: leave without saving.
    Quit,
    /// `w`: save and go on.
    Write,
    /// `wq`: save, then leave whether or not the save worked.
    WriteQuit,
    /// Anything else.
    Unknown,
}

/// The command that a trimmed command line names.
pub open spec fn command_of(t: Seq<char>) -> Command {
    if t == seq!['q'] {
        Command::Quit
    } else if t == seq!['w'] {
        Command::Write
    } else if t == seq!['w', 'q'] {
        Command::WriteQuit
    } else {
        Command::Unknown
    }
}

/// What the session does after a command has run.
#[derive(Debug, PartialEq, Eq)]
pub enum Outcome {
    /// Editing goes on.
    Continue,
    /// The session ends.
    Terminate,
    /// Editing goes on; the save failed for the given reason.
    SaveFailed(String),
}

/// Whether a command writes the buffer to its file.
pub open spec fn spec_saves(cmd: Command) -> bool {
    cmd == Command::Write || cmd == Command::WriteQuit
}

/// Whether the outcome of `cmd` is right, given the error of its save
/// where it saved and the save failed. `wq` ends the session even when its
/// save failed.
pub open spec fn is_outcome(cmd: Command, save_error: Option<Seq<char>>, r: Outcome) -> bool {
    match cmd {
        Command::Quit => r == Outcome::Terminate,
        Command::WriteQuit => r == Outcome::Terminate,
        Command::Write => match save_error {
            Some(e) => match r {
                Outcome::SaveFailed(m) => m@ == e,
                _ => false,
            },
            None => r == Outcome::Continue,
        },
        Command::Unknown => r == Outcome::Continue,
    }
}

/// `s` without white space at either end.
pub fn trim_chars(s: &Vec<char>) -> (r: Vec<char>)
    ensures
        r@ == trim(s@),
{
    let n = s.len();
    let mut i: usize = 0;
    assert(s@.subrange(0, n as int) =~= s@);
    while i < n && whitespace(s[i])
        invariant
            n == s@.len(),
            i <= n,
            trim_start(s@) == trim_start(s@.subrange(i as int, n as int)),
        decreases n - i,
    {
        assert(s@.subrange(i + 1, n as int) =~= s@.subrange(i as int, n as int).drop_first());
        i = i + 1;
    }
    assert(trim_start(s@) == s@.subrange(i as int, n as int));
    let mut j: usize = n;
    while j > i && whitespace(s[j - 1])
        invariant
            n == s@.len(),
            i <= j <= n,
            trim(s@) == trim_end(s@.subrange(i as int, j as int)),
        decreases j,
    {
        assert(s@.subrange(i as int, j - 1) =~= s@.subrange(i as int, j as int).drop_last());
        j = j - 1;
    }
    let mut r: Vec<char> = Vec::new();
    let mut k: usize = i;
    while k < j
        invariant
            n == s@.len(),
            i <= k <= j <= n,
            r@ == s@.subrange(i as int, k as int),
        decreases j - k,
    {
        r.push(s[k]);
        assert(r@ =~= s@.subrange(i as int, k + 1));
        k = k + 1;
    }
    r
}

/// The command that an already trimmed command line names.
pub fn classify(t: &Vec<char>) -> (r: Command)
    ensures
        r == command_of(t@),
{
    if t.len() == 1 && t[0] == 'q' {
        assert(t@ =~= seq!['q']);
        Command::Quit
    } else if t.len() == 1 && t[0] == 'w' {
        assert(t@ =~= seq!['w']);
        Command::Write
    } else if t.len() == 2 && t[0] == 'w' && t[1] == 'q' {
        assert(t@ =~= seq!['w', 'q']);
        Command::WriteQuit
    } else {
        Command::Unknown
    }
}

/// The command that a command line names, white space at its ends aside.
pub fn parse_command(input: &Vec<char>) -> (r: Command)
    ensures
        r == command_of(trim(input@)),
{
    let t = trim_chars(input);
    classify(&t)
}

/// Whether a command writes the buffer to its file.
pub fn saves(cmd: Command) -> (r: bool)
    ensures
        r == spec_saves(cmd),
{
    match cmd {
        Command::Write | Command::WriteQuit => true,
        _ => false,
    }
}

/// What the session does after `cmd`, where `save_error` is the reason
/// its save failed, if it saved and failed. `q` and `wq` end the session,
/// `wq` also after a failed save; `w` goes on and reports a failed save;
/// an unknown command goes on.
pub fn command_outcome(cmd: Command, save_error: Option<String>) -> (r: Outcome)
    ensures
        is_outcome(cmd, match save_error { Some(e) => Some(e@), None => None }, r),
{
    match cmd {
        Command::Quit => Outcome::Terminate,
        Command::WriteQuit => Outcome::Terminate,
        Command::Write => match save_error {
            Some(e) => Outcome::SaveFailed(e),
            None => Outcome::Continue,
        },
        Command::Unknown => Outcome::Continue,
    }
}

} // verus!
