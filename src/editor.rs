//! The editing session: buffer, cursor, viewport, mode and key bindings,
//! and the dispatcher that turns one input event into a change of them.
use vstd::prelude::*;
use crate::buffer::{
    TextBuffer,
    spec_insert_char,
    spec_delete_char,
    spec_split_line,
    spec_join_with_previous,
};
use crate::command::{Command, command_of, trim, parse_command};
use crate::keys::{Key, KeyCode, KeyBindings, BoundAction, bound_action, preset_bindings, resolve, ctrl};
use crate::viewport::{
    H_SCROLL_STRIDE,
    stride,
    lemma_stride_jump,
    fit_vertical,
    fit_horizontal,
    clamp,
    scrolled,
    fit_row,
    fit_col,
};

verus! {

/// Screen rows above the text: the title line.
pub const TITLE_ROWS: u16 = 1;

/// Screen rows below the text: the status bar.
pub const STATUS_ROWS: u16 = 1;

/// Screen columns left of the text: the line number and a space.
pub const GUTTER: u16 = 5;

/// The number of spaces that the tab key puts in.
pub const TAB_WIDTH: usize = 4;

/// The input mode.
#[derive(Clone, Copy, Debug, PartialEq, Eq, Structural)]
pub enum Mode {
    /// Keys edit the buffer and move the cursor.
    Normal,
    /// Keys build a colon-command.
    CommandLine,
}

/// One input event.
#[derive(Clone, Copy, Debug, PartialEq, Eq, Structural)]
pub enum Event {
    Key(Key),
    ScrollUp,
    ScrollDown,
    Other,
}

/// What the caller has to do after an event, beyond the change of the
/// session itself.
#[derive(Clone, Copy, Debug, PartialEq, Eq, Structural)]
pub enum Effect {
    Nothing,
    /// Write the buffer to its file.
    Save,
    /// Write the buffer to its file and end the session.
    Quit,
    /// Read the buffer again from its file.
    Reload,
    /// Run a command of the command line.
    Run(Command),
}

/// The state of a session, as the contracts speak of it.
pub ghost struct EditorView {
    pub text: Seq<Seq<char>>,
    pub row: int,
    pub col: int,
    pub scroll: int,
    pub h_scroll: int,
    pub height: int,
    pub width: int,
    pub mode: Mode,
    pub command: Seq<char>,
    pub show_help: bool,
    pub bindings: KeyBindings,
    pub vim_mode: bool,
    pub file: Option<Seq<char>>,
}

/// The rows of the viewport that show text: all but the title and the
/// status bar, and at least one.
pub open spec fn text_rows(v: EditorView) -> int {
    if v.height > TITLE_ROWS + STATUS_ROWS {
        v.height - TITLE_ROWS - STATUS_ROWS
    } else {
        1
    }
}

/// The cursor lies in the window: between the title and the status bar
/// vertically, and within the viewport's width horizontally.
pub open spec fn cursor_visible(v: EditorView) -> bool {
    &&& v.scroll <= v.row < v.scroll + text_rows(v)
    &&& v.h_scroll <= v.col < v.h_scroll + v.width
}

/// The cursor lies in the viewport, both ways.
pub open spec fn cursor_in_viewport(v: EditorView) -> bool {
    &&& v.scroll <= v.row < v.scroll + v.height
    &&& v.h_scroll <= v.col < v.h_scroll + v.width
}

/// The session's invariant: the buffer has a line, the cursor lies on a
/// line and within it (or just past its end), the viewport has a row and
/// a column and its text area shows the cursor, and the command line is
/// empty outside its mode.
pub open spec fn view_wf(v: EditorView) -> bool {
    &&& 1 <= v.text.len() < usize::MAX
    &&& 0 <= v.row < v.text.len()
    &&& 0 <= v.col <= v.text[v.row].len()
    &&& 1 <= v.height <= u16::MAX
    &&& 1 <= v.width <= u16::MAX
    &&& 0 <= v.scroll && 0 <= v.h_scroll
    &&& cursor_visible(v)
    &&& (v.mode == Mode::Normal ==> v.command.len() == 0)
}

/// The viewport size taken from a terminal size; a terminal that reports
/// no rows or no columns counts as one.
pub open spec fn at_least_one(n: u16) -> int {
    if n == 0 {
        1
    } else {
        n as int
    }
}

pub open spec fn min(a: int, b: int) -> int {
    if a <= b {
        a
    } else {
        b
    }
}

/// The visible part of line `row`: the characters from the first visible
/// column, as many as the window is wide.
pub open spec fn visible_part(v: EditorView, row: int) -> Seq<char> {
    v.text[row].subrange(
        min(v.h_scroll, v.text[row].len() as int),
        min(v.h_scroll + v.width, v.text[row].len() as int),
    )
}

/// The cursor put at `(row, col)`, with the window moved to show it.
pub open spec fn place(v: EditorView, row: int, col: int) -> EditorView {
    EditorView {
        row,
        col,
        scroll: fit_vertical(row, v.scroll, text_rows(v)),
        h_scroll: fit_horizontal(col, v.h_scroll, v.width),
        ..v
    }
}

/// The cursor put on line `row`, its column cut to that line's length.
pub open spec fn place_on_row(v: EditorView, row: int) -> EditorView {
    place(v, row, min(v.col, v.text[row].len() as int))
}

pub open spec fn spec_move_vertically(v: EditorView, delta: int) -> EditorView {
    place_on_row(v, clamp(v.row + delta, 0, v.text.len() - 1))
}

pub open spec fn spec_move_horizontally(v: EditorView, delta: int) -> EditorView {
    place(v, v.row, clamp(v.col + delta, 0, v.text[v.row].len() as int))
}

pub open spec fn spec_page_up(v: EditorView) -> EditorView {
    let s = v.scroll - min(v.scroll, v.height);
    place_on_row(EditorView { scroll: s, ..v }, s)
}

/// The window moves down by its height, no further than the last full
/// page; the cursor goes to the window's bottom row less the margin of
/// the title and the status bar (`s + height - 3` on a window of three
/// rows or more), or to the last line where that comes first.
pub open spec fn spec_page_down(v: EditorView) -> EditorView {
    let len = v.text.len() as int;
    let s = if v.scroll + v.height < len {
        v.scroll + min(v.height, len - v.scroll - v.height)
    } else {
        v.scroll
    };
    place_on_row(EditorView { scroll: s, ..v }, min(s + text_rows(v) - 1, len - 1))
}

pub open spec fn spec_scroll_by(v: EditorView, delta: int) -> EditorView {
    let s = scrolled(v.scroll, delta, v.height, v.text.len() as int);
    place_on_row(EditorView { scroll: s, ..v }, v.row + s - v.scroll)
}

pub open spec fn spec_input_char(v: EditorView, c: char) -> EditorView {
    place(
        EditorView { text: spec_insert_char(v.text, v.row, v.col, c), ..v },
        v.row,
        v.col + 1,
    )
}

pub open spec fn spaces() -> Seq<char> {
    seq![' ', ' ', ' ', ' ']
}

pub open spec fn spec_input_tab(v: EditorView) -> EditorView {
    let line = v.text[v.row];
    let new_line = line.subrange(0, v.col) + spaces() + line.subrange(v.col, line.len() as int);
    place(EditorView { text: v.text.update(v.row, new_line), ..v }, v.row, v.col + TAB_WIDTH)
}

pub open spec fn spec_new_line(v: EditorView) -> EditorView {
    if v.text.len() + 1 < usize::MAX {
        place(EditorView { text: spec_split_line(v.text, v.row, v.col), ..v }, v.row + 1, 0)
    } else {
        v
    }
}

pub open spec fn spec_backspace(v: EditorView) -> EditorView {
    if v.col > 0 {
        place(
            EditorView { text: spec_delete_char(v.text, v.row, v.col - 1), ..v },
            v.row,
            v.col - 1,
        )
    } else if v.row > 0 {
        place(
            EditorView { text: spec_join_with_previous(v.text, v.row), ..v },
            v.row - 1,
            v.text[v.row - 1].len() as int,
        )
    } else {
        v
    }
}

pub open spec fn spec_toggle_help(v: EditorView) -> EditorView {
    EditorView { show_help: !v.show_help, ..v }
}

pub open spec fn spec_toggle_command_mode(v: EditorView) -> EditorView {
    match v.mode {
        Mode::Normal => EditorView { mode: Mode::CommandLine, ..v },
        Mode::CommandLine => EditorView { mode: Mode::Normal, command: Seq::empty(), ..v },
    }
}

/// A key in normal mode: first the key bindings, then the fixed keys, then
/// a character to put in.
pub open spec fn normal_key(v: EditorView, key: Key) -> (EditorView, Effect) {
    match bound_action(v.bindings, key) {
        Some(BoundAction::Quit) => (v, Effect::Quit),
        Some(BoundAction::Save) => (v, Effect::Save),
        Some(BoundAction::MoveUp) => (spec_move_vertically(v, -1), Effect::Nothing),
        Some(BoundAction::MoveDown) => (spec_move_vertically(v, 1), Effect::Nothing),
        Some(BoundAction::MoveLeft) => (spec_move_horizontally(v, -1), Effect::Nothing),
        Some(BoundAction::MoveRight) => (spec_move_horizontally(v, 1), Effect::Nothing),
        None => match key.code {
            KeyCode::Up => (spec_move_vertically(v, -1), Effect::Nothing),
            KeyCode::Down => (spec_move_vertically(v, 1), Effect::Nothing),
            KeyCode::Left => (spec_move_horizontally(v, -1), Effect::Nothing),
            KeyCode::Right => (spec_move_horizontally(v, 1), Effect::Nothing),
            KeyCode::Enter => (spec_new_line(v), Effect::Nothing),
            KeyCode::Backspace => (spec_backspace(v), Effect::Nothing),
            KeyCode::Tab => (spec_input_tab(v), Effect::Nothing),
            KeyCode::PageUp => (spec_page_up(v), Effect::Nothing),
            KeyCode::PageDown => (spec_page_down(v), Effect::Nothing),
            KeyCode::Esc => (spec_toggle_help(v), Effect::Nothing),
            KeyCode::Char(c) => if key == ctrl('r') {
                (v, Effect::Reload)
            } else if v.vim_mode && c == ':' {
                (spec_toggle_command_mode(v), Effect::Nothing)
            } else {
                (spec_input_char(v, c), Effect::Nothing)
            },
            KeyCode::Other => (v, Effect::Nothing),
        },
    }
}

/// A key in command-line mode: characters build the command, backspace
/// takes the last one back, enter runs it and escape drops it; both leave
/// the mode.
pub open spec fn command_key(v: EditorView, key: Key) -> (EditorView, Effect) {
    match key.code {
        KeyCode::Char(c) => (EditorView { command: v.command.push(c), ..v }, Effect::Nothing),
        KeyCode::Backspace => if v.command.len() > 0 {
            (EditorView { command: v.command.drop_last(), ..v }, Effect::Nothing)
        } else {
            (v, Effect::Nothing)
        },
        KeyCode::Enter => (
            EditorView { mode: Mode::Normal, command: Seq::empty(), ..v },
            Effect::Run(command_of(trim(v.command))),
        ),
        KeyCode::Esc => (spec_toggle_command_mode(v), Effect::Nothing),
        _ => (v, Effect::Nothing),
    }
}

/// The session after `ev`, and what the caller has to do. The mouse wheel
/// scrolls in either mode.
pub open spec fn spec_handle(v: EditorView, ev: Event) -> (EditorView, Effect) {
    match ev {
        Event::ScrollUp => (spec_scroll_by(v, -1), Effect::Nothing),
        Event::ScrollDown => (spec_scroll_by(v, 1), Effect::Nothing),
        Event::Other => (v, Effect::Nothing),
        Event::Key(key) => match v.mode {
            Mode::Normal => normal_key(v, key),
            Mode::CommandLine => command_key(v, key),
        },
    }
}

pub open spec fn opt_view(o: Option<String>) -> Option<Seq<char>> {
    match o {
        Some(s) => Some(s@),
        None => None,
    }
}

/// An editing session.
pub struct Editor {
    buffer: TextBuffer,
    row: usize,
    col: usize,
    scroll: usize,
    h_scroll: usize,
    height: usize,
    width: usize,
    filename: Option<String>,
    show_help: bool,
    bindings: KeyBindings,
    mode: Mode,
    command_input: Vec<char>,
    vim_mode: bool,
}

impl View for Editor {
    type V = EditorView;

    closed spec fn view(&self) -> EditorView {
        EditorView {
            text: self.buffer@,
            row: self.row as int,
            col: self.col as int,
            scroll: self.scroll as int,
            h_scroll: self.h_scroll as int,
            height: self.height as int,
            width: self.width as int,
            mode: self.mode,
            command: self.command_input@,
            show_help: self.show_help,
            bindings: self.bindings,
            vim_mode: self.vim_mode,
            file: opt_view(self.filename),
        }
    }
}

impl Editor {
    pub open spec fn wf(&self) -> bool {
        view_wf(self@)
    }

    /// A session on one empty line whose viewport is the terminal's size
    /// (a terminal that reports no rows or no columns counts as one), with
    /// the key bindings of `preset`. `vim_mode` makes `:` open the command
    /// line.
    pub fn new(
        filename: Option<String>,
        preset: &str,
        vim_mode: bool,
        terminal_width: u16,
        terminal_height: u16,
    ) -> (r: Editor)
        ensures
            r.wf(),
            r@ == (EditorView {
                text: seq![Seq::empty()],
                row: 0,
                col: 0,
                scroll: 0,
                h_scroll: 0,
                height: at_least_one(terminal_height),
                width: at_least_one(terminal_width),
                mode: Mode::Normal,
                command: Seq::empty(),
                show_help: false,
                bindings: preset_bindings(preset@),
                vim_mode,
                file: opt_view(filename),
            }),
    {
        let height: u16 = if terminal_height == 0 { 1 } else { terminal_height };
        let width: u16 = if terminal_width == 0 { 1 } else { terminal_width };
        let r = Editor {
            buffer: TextBuffer::new(),
            row: 0,
            col: 0,
            scroll: 0,
            h_scroll: 0,
            height: height as usize,
            width: width as usize,
            filename,
            show_help: false,
            bindings: resolve(preset),
            mode: Mode::Normal,
            command_input: Vec::new(),
            vim_mode,
        };
        assert(r@.command =~= Seq::<char>::empty());
        r
    }

    /// Replaces the buffer by `lines` (one empty line where there are none)
    /// and puts the cursor and the window back at the start.
    pub fn load_lines(&mut self, lines: Vec<Vec<char>>)
        requires
            old(self).wf(),
            lines@.len() < usize::MAX,
        ensures
            final(self).wf(),
            final(self)@ == (EditorView {
                text: if lines@.len() > 0 {
                    lines@.map_values(|l: Vec<char>| l@)
                } else {
                    seq![Seq::empty()]
                },
                row: 0,
                col: 0,
                scroll: 0,
                h_scroll: 0,
                ..old(self)@
            }),
    {
        self.buffer = TextBuffer::from_lines(lines);
        self.row = 0;
        self.col = 0;
        self.scroll = 0;
        self.h_scroll = 0;
    }

    /// The number of rows of the viewport that show text.
    pub fn text_rows(&self) -> (r: usize)
        requires
            1 <= self@.height <= u16::MAX,
        ensures
            r == text_rows(self@),
    {
        if self.height > (TITLE_ROWS + STATUS_ROWS) as usize {
            self.height - (TITLE_ROWS + STATUS_ROWS) as usize
        } else {
            1
        }
    }

    /// Puts the cursor at `(row, col)` and moves the window to show it.
    fn place(&mut self, row: usize, col: usize)
        requires
            1 <= old(self).height <= u16::MAX,
            1 <= old(self).width <= u16::MAX,
        ensures
            final(self)@ == place(old(self)@, row as int, col as int),
            final(self).height == old(self).height,
            final(self).width == old(self).width,
    {
        let rows = self.text_rows();
        self.scroll = fit_row(row, self.scroll, rows);
        self.h_scroll = fit_col(col, self.h_scroll, self.width);
        self.row = row;
        self.col = col;
    }

    /// Puts the cursor on line `row`, its column cut to the line's length.
    fn place_on_row(&mut self, row: usize)
        requires
            old(self).wf() || (1 <= old(self)@.text.len() && 1 <= old(self).height <= u16::MAX
                && 1 <= old(self).width <= u16::MAX),
            row < old(self)@.text.len(),
        ensures
            final(self)@ == place_on_row(old(self)@, row as int),
    {
        let len = self.buffer.line_len(row);
        let c = if self.col <= len { self.col } else { len };
        self.place(row, c);
    }

    /// Moves the cursor `delta` lines down (up, where `delta` is negative),
    /// stopping at the first and the last line.
    pub fn move_cursor_vertically(&mut self, delta: isize)
        requires
            old(self).wf(),
        ensures
            final(self).wf(),
            final(self)@ == spec_move_vertically(old(self)@, delta as int),
            cursor_visible(final(self)@),
            cursor_in_viewport(final(self)@),
    {
        proof { lemma_moves_wf(self@, delta as int); }
        let last = self.buffer.len() - 1;
        let target: usize = if delta >= 0 {
            let d = delta as usize;
            if d >= last - self.row { last } else { self.row + d }
        } else {
            let back: usize = (-(delta + 1)) as usize + 1;
            if back >= self.row { 0 } else { self.row - back }
        };
        self.place_on_row(target);
    }

    /// Moves the cursor `delta` columns right (left, where `delta` is
    /// negative), stopping at the start and just past the end of the line.
    pub fn move_cursor_horizontally(&mut self, delta: isize)
        requires
            old(self).wf(),
        ensures
            final(self).wf(),
            final(self)@ == spec_move_horizontally(old(self)@, delta as int),
            cursor_visible(final(self)@),
            cursor_in_viewport(final(self)@),
    {
        proof { lemma_moves_wf(self@, delta as int); }
        let last = self.buffer.line_len(self.row);
        let target: usize = if delta >= 0 {
            let d = delta as usize;
            if d >= last - self.col { last } else { self.col + d }
        } else {
            let back: usize = (-(delta + 1)) as usize + 1;
            if back >= self.col { 0 } else { self.col - back }
        };
        self.place(self.row, target);
    }

    pub fn move_up(&mut self)
        requires
            old(self).wf(),
        ensures
            final(self).wf(),
            final(self)@ == spec_move_vertically(old(self)@, -1),
    {
        self.move_cursor_vertically(-1);
    }

    pub fn move_down(&mut self)
        requires
            old(self).wf(),
        ensures
            final(self).wf(),
            final(self)@ == spec_move_vertically(old(self)@, 1),
    {
        self.move_cursor_vertically(1);
    }

    pub fn move_left(&mut self)
        requires
            old(self).wf(),
        ensures
            final(self).wf(),
            final(self)@ == spec_move_horizontally(old(self)@, -1),
    {
        self.move_cursor_horizontally(-1);
    }

    pub fn move_right(&mut self)
        requires
            old(self).wf(),
        ensures
            final(self).wf(),
            final(self)@ == spec_move_horizontally(old(self)@, 1),
            final(self)@.col < old(self)@.h_scroll + old(self)@.width ==> final(self)@.h_scroll
                == old(self)@.h_scroll,
            old(self)@.width >= H_SCROLL_STRIDE && final(self)@.col >= old(self)@.h_scroll
                + old(self)@.width ==> final(self)@.h_scroll == old(self)@.h_scroll
                + H_SCROLL_STRIDE,
    {
        self.move_cursor_horizontally(1);
    }

    /// Moves the window up by its height, stopping at the first line, and
    /// the cursor to the window's first line.
    pub fn page_up(&mut self)
        requires
            old(self).wf(),
        ensures
            final(self).wf(),
            final(self)@ == spec_page_up(old(self)@),
    {
        proof { lemma_pages_wf(self@, 0); }
        let amount = if self.scroll <= self.height { self.scroll } else { self.height };
        self.scroll = self.scroll - amount;
        self.place_on_row(self.scroll);
    }

    /// Moves the window down by its height, stopping once the last line is
    /// at its bottom, and the cursor to the window's last line, the text
    /// line just above the status bar.
    pub fn page_down(&mut self)
        requires
            old(self).wf(),
        ensures
            final(self).wf(),
            final(self)@ == spec_page_down(old(self)@),
            old(self)@.height >= 3 && old(self)@.scroll + old(self)@.height < old(self)@.text.len()
                ==> final(self)@.row == final(self)@.scroll + old(self)@.height - 3,
    {
        proof { lemma_pages_wf(self@, 0); }
        let len = self.buffer.len();
        if self.scroll < len && self.height < len - self.scroll {
            let rest = len - self.scroll - self.height;
            let amount = if self.height <= rest { self.height } else { rest };
            self.scroll = self.scroll + amount;
        }
        let rows = self.text_rows();
        let bottom = if rows - 1 <= len - 1 - self.scroll {
            self.scroll + rows - 1
        } else {
            len - 1
        };
        self.place_on_row(bottom);
    }

    /// Scrolls the window by `delta` lines, as the mouse wheel does, keeping
    /// its first line within `[0, max(0, line count - height)]`; the cursor
    /// moves with the window, so that it stays where it was on the screen.
    pub fn scroll_by(&mut self, delta: isize)
        requires
            old(self).wf(),
        ensures
            final(self).wf(),
            final(self)@ == spec_scroll_by(old(self)@, delta as int),
    {
        proof { lemma_pages_wf(self@, delta as int); }
        let s = crate::viewport::scroll_target(self.scroll, delta, self.height, self.buffer.len());
        let row = if s >= self.scroll { self.row + (s - self.scroll) } else { self.row - (self.scroll - s) };
        self.scroll = s;
        self.place_on_row(row);
    }

    pub fn scroll_up(&mut self)
        requires
            old(self).wf(),
        ensures
            final(self).wf(),
            final(self)@ == spec_scroll_by(old(self)@, -1),
    {
        self.scroll_by(-1);
    }

    pub fn scroll_down(&mut self)
        requires
            old(self).wf(),
        ensures
            final(self).wf(),
            final(self)@ == spec_scroll_by(old(self)@, 1),
    {
        self.scroll_by(1);
    }

    /// Puts `c` at the cursor and moves the cursor past it.
    pub fn input_char(&mut self, c: char)
        requires
            old(self).wf(),
        ensures
            final(self).wf(),
            final(self)@ == spec_input_char(old(self)@, c),
            final(self)@.text.len() == old(self)@.text.len(),
    {
        proof { lemma_edits_wf(self@, c); }
        self.buffer.insert_char(self.row, self.col, c);
        // Reading the grown line's length shows that it fits a usize, and so
        // does the new column within it: nothing else bounds a Vec's length.
        let _len = self.buffer.line_len(self.row);
        self.place(self.row, self.col + 1);
    }

    /// Puts four spaces at the cursor and moves the cursor past them.
    pub fn input_tab(&mut self)
        requires
            old(self).wf(),
        ensures
            final(self).wf(),
            final(self)@ == spec_input_tab(old(self)@),
    {
        proof { lemma_edits_wf(self@, ' '); }
        let ghost v = self@;
        let mut k: usize = 0;
        assert(v.text[v.row].subrange(0, v.col) + spaces().subrange(0, 0)
            + v.text[v.row].subrange(v.col, v.text[v.row].len() as int) =~= v.text[v.row]);
        assert(v.text.update(v.row, v.text[v.row]) =~= v.text);
        while k < TAB_WIDTH
            invariant
                0 <= k <= TAB_WIDTH,
                view_wf(v),
                self@ == (EditorView {
                    text: v.text.update(
                        v.row,
                        v.text[v.row].subrange(0, v.col) + spaces().subrange(0, k as int)
                            + v.text[v.row].subrange(v.col, v.text[v.row].len() as int),
                    ),
                    ..v
                }),
            decreases TAB_WIDTH - k,
        {
            self.buffer.insert_char(self.row, self.col, ' ');
            assert(self@.text[v.row] =~= v.text[v.row].subrange(0, v.col) + spaces().subrange(0, k + 1)
                + v.text[v.row].subrange(v.col, v.text[v.row].len() as int));
            assert(self@.text =~= v.text.update(
                v.row,
                v.text[v.row].subrange(0, v.col) + spaces().subrange(0, k + 1)
                    + v.text[v.row].subrange(v.col, v.text[v.row].len() as int),
            ));
            k = k + 1;
        }
        assert(spaces().subrange(0, 4) =~= spaces());
        // Reading the grown line's length shows that it fits a usize, and so
        // does the new column within it: nothing else bounds a Vec's length.
        let _len = self.buffer.line_len(self.row);
        self.place(self.row, self.col + TAB_WIDTH);
    }

    /// Splits the line at the cursor; the cursor goes to the start of the
    /// new line. A buffer that already holds the most lines that a `usize`
    /// can count, less one, is left as it is.
    pub fn new_line(&mut self)
        requires
            old(self).wf(),
        ensures
            final(self).wf(),
            final(self)@ == spec_new_line(old(self)@),
    {
        proof { lemma_edits_wf(self@, ' '); }
        if self.buffer.len() < usize::MAX - 1 {
            self.buffer.split_line(self.row, self.col);
            self.place(self.row + 1, 0);
        }
    }

    /// Takes out the character before the cursor; at the start of a line,
    /// joins the line to the one before it, the cursor going to the joint.
    /// At the start of the buffer it does nothing.
    pub fn backspace(&mut self)
        requires
            old(self).wf(),
        ensures
            final(self).wf(),
            final(self)@ == spec_backspace(old(self)@),
    {
        proof { lemma_edits_wf(self@, ' '); }
        if self.col > 0 {
            self.buffer.delete_char(self.row, self.col - 1);
            self.place(self.row, self.col - 1);
        } else if self.row > 0 {
            let prev_len = self.buffer.line_len(self.row - 1);
            self.buffer.join_with_previous(self.row);
            self.place(self.row - 1, prev_len);
        }
    }

    /// Shows or hides the help overlay.
    pub fn toggle_help(&mut self)
        requires
            old(self).wf(),
        ensures
            final(self).wf(),
            final(self)@ == spec_toggle_help(old(self)@),
    {
        self.show_help = !self.show_help;
    }

    /// Enters the command line, or leaves it dropping what was typed.
    pub fn toggle_command_mode(&mut self)
        requires
            old(self).wf(),
        ensures
            final(self).wf(),
            final(self)@ == spec_toggle_command_mode(old(self)@),
    {
        match self.mode {
            Mode::Normal => {
                self.mode = Mode::CommandLine;
            },
            Mode::CommandLine => {
                self.mode = Mode::Normal;
                self.command_input.clear();
            },
        }
    }

    /// Adds `c` to the command line, in command-line mode.
    pub fn handle_command_input(&mut self, c: char)
        requires
            old(self).wf(),
        ensures
            final(self).wf(),
            old(self)@.mode == Mode::CommandLine ==> final(self)@ == (EditorView {
                command: old(self)@.command.push(c),
                ..old(self)@
            }),
            old(self)@.mode == Mode::Normal ==> final(self)@ == old(self)@,
    {
        if self.mode == Mode::CommandLine {
            self.command_input.push(c);
        }
    }

    /// Runs the command line: names the command that it holds, empties it
    /// and goes back to normal mode.
    pub fn execute_command(&mut self) -> (r: Command)
        requires
            old(self).wf(),
        ensures
            final(self).wf(),
            r == command_of(trim(old(self)@.command)),
            final(self)@ == (EditorView { mode: Mode::Normal, command: Seq::empty(), ..old(self)@ }),
    {
        let cmd = parse_command(&self.command_input);
        self.command_input.clear();
        self.mode = Mode::Normal;
        cmd
    }

    fn normal_key(&mut self, key: Key) -> (r: Effect)
        requires
            old(self).wf(),
            old(self)@.mode == Mode::Normal,
        ensures
            (final(self)@, r) == normal_key(old(self)@, key),
    {
        match self.bindings.lookup(key) {
            Some(BoundAction::Quit) => Effect::Quit,
            Some(BoundAction::Save) => Effect::Save,
            Some(BoundAction::MoveUp) => {
                self.move_up();
                Effect::Nothing
            },
            Some(BoundAction::MoveDown) => {
                self.move_down();
                Effect::Nothing
            },
            Some(BoundAction::MoveLeft) => {
                self.move_left();
                Effect::Nothing
            },
            Some(BoundAction::MoveRight) => {
                self.move_right();
                Effect::Nothing
            },
            None => {
                match key.code {
                    KeyCode::Up => self.move_up(),
                    KeyCode::Down => self.move_down(),
                    KeyCode::Left => self.move_left(),
                    KeyCode::Right => self.move_right(),
                    KeyCode::Enter => self.new_line(),
                    KeyCode::Backspace => self.backspace(),
                    KeyCode::Tab => self.input_tab(),
                    KeyCode::PageUp => self.page_up(),
                    KeyCode::PageDown => self.page_down(),
                    KeyCode::Esc => self.toggle_help(),
                    KeyCode::Char(c) => {
                        if key == Key::ctrl('r') {
                            return Effect::Reload;
                        } else if self.vim_mode && c == ':' {
                            self.toggle_command_mode();
                        } else {
                            self.input_char(c);
                        }
                    },
                    KeyCode::Other => {},
                }
                Effect::Nothing
            },
        }
    }

    fn command_key(&mut self, key: Key) -> (r: Effect)
        requires
            old(self).wf(),
            old(self)@.mode == Mode::CommandLine,
        ensures
            (final(self)@, r) == command_key(old(self)@, key),
    {
        match key.code {
            KeyCode::Char(c) => {
                self.handle_command_input(c);
                Effect::Nothing
            },
            KeyCode::Backspace => {
                self.command_input.pop();
                Effect::Nothing
            },
            KeyCode::Enter => Effect::Run(self.execute_command()),
            KeyCode::Esc => {
                self.toggle_command_mode();
                Effect::Nothing
            },
            _ => Effect::Nothing,
        }
    }

    /// Handles one input event and says what the caller has to do.
    pub fn handle(&mut self, ev: Event) -> (r: Effect)
        requires
            old(self).wf(),
        ensures
            final(self).wf(),
            (final(self)@, r) == spec_handle(old(self)@, ev),
    {
        proof { lemma_handle_keeps_wf(self@, ev); }
        match ev {
            Event::ScrollUp => {
                self.scroll_up();
                Effect::Nothing
            },
            Event::ScrollDown => {
                self.scroll_down();
                Effect::Nothing
            },
            Event::Other => Effect::Nothing,
            Event::Key(key) => match self.mode {
                Mode::Normal => self.normal_key(key),
                Mode::CommandLine => self.command_key(key),
            },
        }
    }

    /// The buffer.
    pub fn buffer(&self) -> (r: &TextBuffer)
        ensures
            r@ == self@.text,
    {
        &self.buffer
    }

    /// The cursor's line.
    pub fn cursor_row(&self) -> (r: usize)
        ensures
            r == self@.row,
    {
        self.row
    }

    /// The cursor's column.
    pub fn cursor_col(&self) -> (r: usize)
        ensures
            r == self@.col,
    {
        self.col
    }

    /// The first visible line.
    pub fn scroll_offset(&self) -> (r: usize)
        ensures
            r == self@.scroll,
    {
        self.scroll
    }

    /// The first visible column.
    pub fn horizontal_scroll_offset(&self) -> (r: usize)
        ensures
            r == self@.h_scroll,
    {
        self.h_scroll
    }

    /// The viewport's height: the terminal's rows, title and status bar
    /// included.
    pub fn height(&self) -> (r: usize)
        ensures
            r == self@.height,
    {
        self.height
    }

    /// The viewport's width: the terminal's columns, gutter included.
    pub fn width(&self) -> (r: usize)
        ensures
            r == self@.width,
    {
        self.width
    }

    pub fn mode(&self) -> (r: Mode)
        ensures
            r == self@.mode,
    {
        self.mode
    }

    /// What has been typed on the command line.
    pub fn command_input(&self) -> (r: &Vec<char>)
        ensures
            r@ == self@.command,
    {
        &self.command_input
    }

    /// Whether the help overlay is shown.
    pub fn show_help(&self) -> (r: bool)
        ensures
            r == self@.show_help,
    {
        self.show_help
    }

    pub fn key_bindings(&self) -> (r: KeyBindings)
        ensures
            r == self@.bindings,
    {
        self.bindings
    }

    pub fn vim_mode(&self) -> (r: bool)
        ensures
            r == self@.vim_mode,
    {
        self.vim_mode
    }

    /// The file that the buffer belongs to, if any.
    pub fn filename(&self) -> (r: &Option<String>)
        ensures
            opt_view(*r) == self@.file,
    {
        &self.filename
    }

    /// The visible lines: from the first visible line up to, not
    /// including, the returned end.
    pub fn visible_rows(&self) -> (r: (usize, usize))
        requires
            self.wf(),
        ensures
            r.0 == self@.scroll,
            r.1 == min(self@.scroll + text_rows(self@), self@.text.len() as int),
    {
        let len = self.buffer.len();
        let rows = self.text_rows();
        let end = if rows <= len - self.scroll { self.scroll + rows } else { len };
        (self.scroll, end)
    }

    /// The visible part of line `row`: the characters from the first
    /// visible column, as many as the window is wide.
    pub fn visible_text(&self, row: usize) -> (r: Vec<char>)
        requires
            self.wf(),
            row < self@.text.len(),
        ensures
            r@ == visible_part(self@, row as int),
    {
        let line = self.buffer.line(row);
        let len = line.len();
        let start = if self.h_scroll <= len { self.h_scroll } else { len };
        let end = if self.width <= len - start { start + self.width } else { len };
        let mut r: Vec<char> = Vec::new();
        let mut k = start;
        while k < end
            invariant
                start <= k <= end <= len,
                len == line@.len(),
                r@ == line@.subrange(start as int, k as int),
            decreases end - k,
        {
            r.push(line[k]);
            assert(r@ =~= line@.subrange(start as int, k + 1));
            k = k + 1;
        }
        r
    }

    /// Where the cursor stands on the screen: its column and its row,
    /// past the gutter and the title.
    pub fn cursor_screen_position(&self) -> (r: (usize, usize))
        requires
            self.wf(),
        ensures
            r.0 == GUTTER + self@.col - self@.h_scroll,
            r.1 == TITLE_ROWS + self@.row - self@.scroll,
    {
        (GUTTER as usize + (self.col - self.h_scroll), TITLE_ROWS as usize + (self.row - self.scroll))
    }
}

/// Placing the cursor on a line, within it, keeps the invariant.
pub proof fn lemma_place(v: EditorView, row: int, col: int)
    requires
        1 <= v.text.len() < usize::MAX,
        0 <= row < v.text.len(),
        0 <= col <= v.text[row].len(),
        1 <= v.height <= u16::MAX,
        1 <= v.width <= u16::MAX,
        0 <= v.scroll && 0 <= v.h_scroll,
        v.mode == Mode::Normal ==> v.command.len() == 0,
    ensures
        view_wf(place(v, row, col)),
{
    let w = v.width;
    if col >= v.h_scroll + w {
        let x = col - v.h_scroll - w;
        let k = stride(w);
        lemma_stride_jump(x, k);
    }
}

proof fn lemma_place_on_row(v: EditorView, row: int)
    requires
        1 <= v.text.len() < usize::MAX,
        0 <= row < v.text.len(),
        0 <= v.col,
        1 <= v.height <= u16::MAX,
        1 <= v.width <= u16::MAX,
        0 <= v.scroll && 0 <= v.h_scroll,
        v.mode == Mode::Normal ==> v.command.len() == 0,
    ensures
        view_wf(place_on_row(v, row)),
{
    lemma_place(v, row, min(v.col, v.text[row].len() as int));
}

proof fn lemma_moves_wf(v: EditorView, delta: int)
    requires
        view_wf(v),
    ensures
        view_wf(spec_move_vertically(v, delta)),
        view_wf(spec_move_horizontally(v, delta)),
{
    lemma_place_on_row(v, clamp(v.row + delta, 0, v.text.len() - 1));
    lemma_place(v, v.row, clamp(v.col + delta, 0, v.text[v.row].len() as int));
}

proof fn lemma_pages_wf(v: EditorView, delta: int)
    requires
        view_wf(v),
    ensures
        view_wf(spec_page_up(v)),
        view_wf(spec_page_down(v)),
        view_wf(spec_scroll_by(v, delta)),
{
    let len = v.text.len() as int;
    let s = v.scroll - min(v.scroll, v.height);
    lemma_place_on_row(EditorView { scroll: s, ..v }, s);
    let s = if v.scroll + v.height < len {
        v.scroll + min(v.height, len - v.scroll - v.height)
    } else {
        v.scroll
    };
    lemma_place_on_row(EditorView { scroll: s, ..v }, min(s + text_rows(v) - 1, len - 1));
    let s = scrolled(v.scroll, delta, v.height, len);
    lemma_place_on_row(EditorView { scroll: s, ..v }, v.row + s - v.scroll);
}

proof fn lemma_edits_wf(v: EditorView, c: char)
    requires
        view_wf(v),
    ensures
        view_wf(spec_input_char(v, c)),
        view_wf(spec_input_tab(v)),
        view_wf(spec_new_line(v)),
        view_wf(spec_backspace(v)),
{
    lemma_place(
        EditorView { text: spec_insert_char(v.text, v.row, v.col, c), ..v },
        v.row,
        v.col + 1,
    );
    let line = v.text[v.row];
    let new_line = line.subrange(0, v.col) + spaces() + line.subrange(v.col, line.len() as int);
    lemma_place(EditorView { text: v.text.update(v.row, new_line), ..v }, v.row, v.col + TAB_WIDTH);
    if v.text.len() + 1 < usize::MAX {
        lemma_place(EditorView { text: spec_split_line(v.text, v.row, v.col), ..v }, v.row + 1, 0);
    }
    if v.col > 0 {
        lemma_place(
            EditorView { text: spec_delete_char(v.text, v.row, v.col - 1), ..v },
            v.row,
            v.col - 1,
        );
    } else if v.row > 0 {
        let t = spec_join_with_previous(v.text, v.row);
        assert(t[v.row - 1] == v.text[v.row - 1] + v.text[v.row]);
        lemma_place(EditorView { text: t, ..v }, v.row - 1, v.text[v.row - 1].len() as int);
    }
}

/// Every event keeps the session's invariant: in particular the cursor
/// stays on a line of the buffer, its column never passes the end of that
/// line, and the window shows it.
pub proof fn lemma_handle_keeps_wf(v: EditorView, ev: Event)
    requires
        view_wf(v),
    ensures
        view_wf(spec_handle(v, ev).0),
        spec_handle(v, ev).0.col <= spec_handle(v, ev).0.text[spec_handle(v, ev).0.row].len(),
        cursor_in_viewport(spec_handle(v, ev).0),
{
    lemma_moves_wf(v, -1);
    lemma_moves_wf(v, 1);
    lemma_pages_wf(v, -1);
    lemma_pages_wf(v, 1);
    match ev {
        Event::Key(key) => {
            if let KeyCode::Char(c) = key.code {
                lemma_edits_wf(v, c);
            } else {
                lemma_edits_wf(v, ' ');
            }
        },
        _ => {},
    }
}

/// Moving the cursor up or down, left or right, by any amount leaves it in
/// the text area of the window, and so in the viewport, both ways.
pub proof fn lemma_moves_keep_cursor_visible(v: EditorView, delta: int)
    requires
        view_wf(v),
    ensures
        cursor_visible(spec_move_vertically(v, delta)),
        cursor_visible(spec_move_horizontally(v, delta)),
        cursor_in_viewport(spec_move_vertically(v, delta)),
        cursor_in_viewport(spec_move_horizontally(v, delta)),
{
    lemma_moves_wf(v, delta);
}

/// Splitting the line at the cursor and then taking back the line break
/// gives the lines and the cursor that there were before.
pub proof fn lemma_new_line_then_backspace(v: EditorView)
    requires
        view_wf(v),
        v.text.len() + 1 < usize::MAX,
    ensures
        spec_backspace(spec_new_line(v)).text == v.text,
        spec_backspace(spec_new_line(v)).text.len() == v.text.len(),
        spec_new_line(v).text.len() == v.text.len() + 1,
        spec_backspace(spec_new_line(v)).row == v.row,
        spec_backspace(spec_new_line(v)).col == v.col,
{
    crate::buffer::lemma_split_then_join(v.text, v.row, v.col);
    let split = spec_split_line(v.text, v.row, v.col);
    assert(split[v.row] == v.text[v.row].subrange(0, v.col));
}

} // verus!
