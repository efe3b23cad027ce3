//! Keys, key bindings and their presets.
use vstd::prelude::*;

verus! {

/// The modifier bit of the Shift key.
pub const MOD_SHIFT: u8 = 1;

/// The modifier bit of the Control key.
pub const MOD_CONTROL: u8 = 2;

/// The modifier bit of the Alt key.
pub const MOD_ALT: u8 = 4;

/// A key of the keyboard, as far as the editor tells keys apart.
#[derive(Clone, Copy, Debug, PartialEq, Eq, Structural)]
pub enum KeyCode {
    Char(char),
    Up,
    Down,
    Left,
    Right,
    Enter,
    Backspace,
    Tab,
    PageUp,
    PageDown,
    Esc,
    Other,
}

/// The set of modifier keys held with a key, one bit per modifier.
#[derive(Clone, Copy, Debug, PartialEq, Eq, Structural)]
pub struct Modifiers {
    pub bits: u8,
}

impl Modifiers {
    /// No modifier held.
    pub fn none() -> (r: Modifiers)
        ensures
            r.bits == 0,
    {
        Modifiers { bits: 0 }
    }

    /// Control held, and nothing else.
    pub fn control() -> (r: Modifiers)
        ensures
            r.bits == MOD_CONTROL,
    {
        Modifiers { bits: MOD_CONTROL }
    }
}

/// A key press: the key and the modifiers held with it.
#[derive(Clone, Copy, Debug, PartialEq, Eq, Structural)]
pub struct Key {
    pub code: KeyCode,
    pub modifiers: Modifiers,
}

pub open spec fn plain(code: KeyCode) -> Key {
    Key { code, modifiers: Modifiers { bits: 0 } }
}

pub open spec fn ctrl(c: char) -> Key {
    Key { code: KeyCode::Char(c), modifiers: Modifiers { bits: MOD_CONTROL } }
}

impl Key {
    /// A key pressed with no modifier.
    pub fn plain(code: KeyCode) -> (r: Key)
        ensures
            r == plain(code),
    {
        Key { code, modifiers: Modifiers::none() }
    }

    /// A character key pressed with Control.
    pub fn ctrl(c: char) -> (r: Key)
        ensures
            r == ctrl(c),
    {
        Key { code: KeyCode::Char(c), modifiers: Modifiers::control() }
    }
}

/// What a key binding can trigger.
#[derive(Clone, Copy, Debug, PartialEq, Eq, Structural)]
pub enum BoundAction {
    Save,
    Quit,
    MoveUp,
    MoveDown,
    MoveLeft,
    MoveRight,
}

/// The key that triggers each of the six bindable actions.
#[derive(Clone, Copy, Debug, PartialEq, Eq, Structural)]
pub struct KeyBindings {
    pub save: Key,
    pub quit: Key,
    pub move_up: Key,
    pub move_down: Key,
    pub move_left: Key,
    pub move_right: Key,
}

pub open spec fn table(save: Key, quit: Key, up: Key, down: Key, left: Key, right: Key) -> KeyBindings {
    KeyBindings { save, quit, move_up: up, move_down: down, move_left: left, move_right: right }
}

/// The table that a preset name selects; a name that is not a preset
/// selects the fallback table.
pub open spec fn preset_bindings(preset: Seq<char>) -> KeyBindings {
    let arrows_save_quit = |s: char, q: char|
        table(
            ctrl(s),
            ctrl(q),
            plain(KeyCode::Up),
            plain(KeyCode::Down),
            plain(KeyCode::Left),
            plain(KeyCode::Right),
        );
    if preset == "atto"@ {
        arrows_save_quit('w', 'q')
    } else if preset == "nano"@ {
        arrows_save_quit('o', 'x')
    } else if preset == "micro"@ {
        arrows_save_quit('s', 'q')
    } else if preset == "emacs"@ {
        table(ctrl('x'), ctrl('c'), ctrl('p'), ctrl('n'), ctrl('b'), ctrl('f'))
    } else {
        table(ctrl('t'), ctrl('w'), ctrl('k'), ctrl('j'), ctrl('h'), ctrl('l'))
    }
}

/// The action bound to `key`, if any. Bindings are tried in the order quit,
/// save, up, down, left, right: the first that matches wins.
pub open spec fn bound_action(b: KeyBindings, key: Key) -> Option<BoundAction> {
    if key == b.quit {
        Some(BoundAction::Quit)
    } else if key == b.save {
        Some(BoundAction::Save)
    } else if key == b.move_up {
        Some(BoundAction::MoveUp)
    } else if key == b.move_down {
        Some(BoundAction::MoveDown)
    } else if key == b.move_left {
        Some(BoundAction::MoveLeft)
    } else if key == b.move_right {
        Some(BoundAction::MoveRight)
    } else {
        None
    }
}

/// The six keys of a table are pairwise distinct.
pub open spec fn all_distinct(b: KeyBindings) -> bool {
    let ks = seq![b.save, b.quit, b.move_up, b.move_down, b.move_left, b.move_right];
    forall|i: int, j: int| 0 <= i < j < 6 ==> ks[i] != ks[j]
}

/// Whether `s` holds exactly the characters of `t`.
fn same_text(s: &str, t: &str) -> (r: bool)
    ensures
        r == (s@ == t@),
{
    let n = s.unicode_len();
    if n != t.unicode_len() {
        return false;
    }
    let mut i: usize = 0;
    while i < n
        invariant
            n == s@.len(),
            n == t@.len(),
            i <= n,
            s@.subrange(0, i as int) == t@.subrange(0, i as int),
        decreases n - i,
    {
        if s.get_char(i) != t.get_char(i) {
            return false;
        }
        assert(s@.subrange(0, i + 1) =~= s@.subrange(0, i as int).push(s@[i as int]));
        assert(t@.subrange(0, i + 1) =~= t@.subrange(0, i as int).push(t@[i as int]));
        i = i + 1;
    }
    assert(s@ =~= s@.subrange(0, n as int));
    assert(t@ =~= t@.subrange(0, n as int));
    true
}

fn arrows_save_quit(s: char, q: char) -> (r: KeyBindings)
    ensures
        r == table(
            ctrl(s),
            ctrl(q),
            plain(KeyCode::Up),
            plain(KeyCode::Down),
            plain(KeyCode::Left),
            plain(KeyCode::Right),
        ),
{
    KeyBindings {
        save: Key::ctrl(s),
        quit: Key::ctrl(q),
        move_up: Key::plain(KeyCode::Up),
        move_down: Key::plain(KeyCode::Down),
        move_left: Key::plain(KeyCode::Left),
        move_right: Key::plain(KeyCode::Right),
    }
}

/// The key bindings of a preset. Every name gives a table: "atto", "nano",
/// "micro" and "emacs" name presets, and any other name gives the fallback.
pub fn resolve(preset: &str) -> (r: KeyBindings)
    ensures
        r == preset_bindings(preset@),
{
    if same_text(preset, "atto") {
        arrows_save_quit('w', 'q')
    } else if same_text(preset, "nano") {
        arrows_save_quit('o', 'x')
    } else if same_text(preset, "micro") {
        arrows_save_quit('s', 'q')
    } else if same_text(preset, "emacs") {
        KeyBindings {
            save: Key::ctrl('x'),
            quit: Key::ctrl('c'),
            move_up: Key::ctrl('p'),
            move_down: Key::ctrl('n'),
            move_left: Key::ctrl('b'),
            move_right: Key::ctrl('f'),
        }
    } else {
        KeyBindings {
            save: Key::ctrl('t'),
            quit: Key::ctrl('w'),
            move_up: Key::ctrl('k'),
            move_down: Key::ctrl('j'),
            move_left: Key::ctrl('h'),
            move_right: Key::ctrl('l'),
        }
    }
}

/// Every preset name, known or not, resolves to a table in which each of
/// the six actions has a key of its own.
pub proof fn lemma_resolve_total(preset: Seq<char>)
    ensures
        all_distinct(preset_bindings(preset)),
{
    let b = preset_bindings(preset);
    let ks = seq![b.save, b.quit, b.move_up, b.move_down, b.move_left, b.move_right];
    assert forall|i: int, j: int| 0 <= i < j < 6 implies ks[i] != ks[j] by {
        assert(ks[i].code != ks[j].code || ks[i].modifiers != ks[j].modifiers);
    }
}

impl KeyBindings {
    /// The action bound to `key`, if any.
    pub fn lookup(&self, key: Key) -> (r: Option<BoundAction>)
        ensures
            r == bound_action(*self, key),
    {
        if key == self.quit {
            Some(BoundAction::Quit)
        } else if key == self.save {
            Some(BoundAction::Save)
        } else if key == self.move_up {
            Some(BoundAction::MoveUp)
        } else if key == self.move_down {
            Some(BoundAction::MoveDown)
        } else if key == self.move_left {
            Some(BoundAction::MoveLeft)
        } else if key == self.move_right {
            Some(BoundAction::MoveRight)
        } else {
            None
        }
    }
}

/// A line of the help overlay: a key and what it does.
pub struct KeyBindingHint {
    pub key: String,
    pub description: String,
}

impl KeyBindingHint {
    pub fn new(key: &str, description: &str) -> (r: Self)
        ensures
            r.key@ == key@,
            r.description@ == description@,
    {
        KeyBindingHint { key: key.to_owned(), description: description.to_owned() }
    }
}

} // verus!
