use atto::command::Command;
use atto::editor::{Editor, Effect, Event, Mode};
use atto::keys::{Key, KeyCode, Modifiers};

fn chars(s: &str) -> Vec<char> {
    s.chars().collect()
}

fn editor_with(lines: &[&str], width: u16, height: u16) -> Editor {
    let mut e = Editor::new(None, "atto", false, width, height);
    e.load_lines(lines.iter().map(|l| chars(l)).collect());
    e
}

fn text(e: &Editor) -> Vec<String> {
    let b = e.buffer();
    (0..b.len()).map(|i| b.line(i).iter().collect()).collect()
}

fn key(code: KeyCode) -> Event {
    Event::Key(Key::plain(code))
}

fn numbered(n: usize) -> Vec<String> {
    (0..n).map(|i| format!("line {}", i)).collect()
}

fn check_invariant(e: &Editor) {
    let b = e.buffer();
    assert!(e.cursor_row() < b.len());
    assert!(e.cursor_col() <= b.line_len(e.cursor_row()));
    assert!(e.scroll_offset() <= e.cursor_row());
    assert!(e.cursor_row() < e.scroll_offset() + e.text_rows());
    assert!(e.horizontal_scroll_offset() <= e.cursor_col());
    assert!(e.cursor_col() < e.horizontal_scroll_offset() + e.width());
    assert!(e.text_rows() <= e.height());
}

#[test]
fn new_session_sizes_window_from_terminal() {
    let e = Editor::new(Some("notes.txt".to_string()), "nano", true, 80, 24);
    assert_eq!(e.height(), 24);
    assert_eq!(e.width(), 80);
    assert_eq!(e.text_rows(), 22);
    assert_eq!(text(&e), vec![""]);
    assert_eq!((e.cursor_row(), e.cursor_col()), (0, 0));
    assert_eq!(e.mode(), Mode::Normal);
    assert!(e.vim_mode());
    assert!(!e.show_help());
    assert_eq!(e.filename().as_deref(), Some("notes.txt"));
    let tiny = Editor::new(None, "atto", false, 3, 1);
    assert_eq!((tiny.width(), tiny.height()), (3, 1));
    assert_eq!(tiny.text_rows(), 1);
    let none = Editor::new(None, "atto", false, 0, 0);
    assert_eq!((none.width(), none.height()), (1, 1));
}

#[test]
fn join_moves_cursor_to_joint() {
    let mut e = editor_with(&["ab", "cd"], 80, 24);
    e.move_down();
    assert_eq!((e.cursor_row(), e.cursor_col()), (1, 0));
    e.backspace();
    assert_eq!(text(&e), vec!["abcd"]);
    assert_eq!((e.cursor_row(), e.cursor_col()), (0, 2));
}

#[test]
fn split_line_keeps_cursor_for_buffer_op() {
    let mut e = editor_with(&["abc"], 80, 24);
    e.move_right();
    e.move_right();
    e.move_right();
    assert_eq!(e.cursor_col(), 3);
    let mut b = atto::buffer::TextBuffer::from_lines(vec![chars("abc")]);
    b.split_line(0, 3);
    assert_eq!(b.len(), 2);
    assert_eq!(b.line(1).len(), 0);
    assert_eq!((e.cursor_row(), e.cursor_col()), (0, 3));
    e.new_line();
    assert_eq!(text(&e), vec!["abc", ""]);
    assert_eq!((e.cursor_row(), e.cursor_col()), (1, 0));
}

#[test]
fn wheel_scroll_saturates() {
    let lines = numbered(50);
    let refs: Vec<&str> = lines.iter().map(|s| s.as_str()).collect();
    let mut e = editor_with(&refs, 80, 10);
    assert_eq!(e.height(), 10);
    for _ in 0..45 {
        e.scroll_by(1);
        check_invariant(&e);
    }
    assert_eq!(e.scroll_offset(), 40);
    assert_eq!(e.cursor_row(), 40);
    e.scroll_by(1);
    assert_eq!(e.scroll_offset(), 40);
    e.scroll_up();
    assert_eq!(e.scroll_offset(), 39);
    assert_eq!(e.cursor_row(), 39);
    e.scroll_by(-100);
    assert_eq!(e.scroll_offset(), 0);
    assert_eq!(e.cursor_row(), 0);
}

#[test]
fn wheel_on_short_buffer_does_nothing() {
    let mut e = editor_with(&["a", "b"], 80, 12);
    e.scroll_down();
    assert_eq!((e.scroll_offset(), e.cursor_row()), (0, 0));
    e.scroll_up();
    assert_eq!((e.scroll_offset(), e.cursor_row()), (0, 0));
}

#[test]
fn vertical_moves_keep_cursor_visible() {
    let lines = numbered(30);
    let refs: Vec<&str> = lines.iter().map(|s| s.as_str()).collect();
    let mut e = editor_with(&refs, 80, 7);
    assert_eq!(e.height(), 7);
    assert_eq!(e.text_rows(), 5);
    for i in 0..29 {
        e.move_down();
        check_invariant(&e);
        assert_eq!(e.cursor_row(), i + 1);
    }
    assert_eq!(e.scroll_offset(), 25);
    e.move_down();
    assert_eq!(e.cursor_row(), 29);
    e.move_cursor_vertically(-12);
    assert_eq!(e.cursor_row(), 17);
    assert_eq!(e.scroll_offset(), 17);
    e.move_cursor_vertically(-100);
    assert_eq!((e.cursor_row(), e.scroll_offset()), (0, 0));
    e.move_cursor_vertically(8);
    assert_eq!((e.cursor_row(), e.scroll_offset()), (8, 4));
    check_invariant(&e);
}

#[test]
fn moving_to_shorter_line_clamps_column() {
    let mut e = editor_with(&["abcdef", "ab"], 80, 24);
    e.move_cursor_horizontally(5);
    assert_eq!(e.cursor_col(), 5);
    e.move_down();
    assert_eq!((e.cursor_row(), e.cursor_col()), (1, 2));
    e.move_up();
    assert_eq!((e.cursor_row(), e.cursor_col()), (0, 2));
    e.move_cursor_horizontally(100);
    assert_eq!(e.cursor_col(), 6);
    e.move_cursor_horizontally(-100);
    assert_eq!(e.cursor_col(), 0);
}

#[test]
fn horizontal_scroll_jumps_by_stride() {
    let long = "x".repeat(30);
    let mut e = editor_with(&[long.as_str()], 15, 24);
    assert_eq!(e.width(), 15);
    for _ in 0..14 {
        e.move_right();
    }
    assert_eq!((e.cursor_col(), e.horizontal_scroll_offset()), (14, 0));
    e.move_right();
    assert_eq!((e.cursor_col(), e.horizontal_scroll_offset()), (15, 7));
    for _ in 0..7 {
        e.move_right();
        check_invariant(&e);
    }
    assert_eq!((e.cursor_col(), e.horizontal_scroll_offset()), (22, 14));
    e.move_cursor_horizontally(-4);
    assert_eq!((e.cursor_col(), e.horizontal_scroll_offset()), (18, 14));
    e.move_cursor_horizontally(-5);
    assert_eq!((e.cursor_col(), e.horizontal_scroll_offset()), (13, 13));
    e.move_left();
    assert_eq!((e.cursor_col(), e.horizontal_scroll_offset()), (12, 12));
    e.move_cursor_horizontally(18);
    assert_eq!((e.cursor_col(), e.horizontal_scroll_offset()), (30, 19));
    check_invariant(&e);
}

#[test]
fn wide_window_scrolls_only_at_its_edge() {
    let long = "y".repeat(100);
    let mut e = editor_with(&[long.as_str()], 80, 24);
    e.move_cursor_horizontally(74);
    e.move_right();
    assert_eq!((e.cursor_col(), e.horizontal_scroll_offset()), (75, 0));
    e.move_cursor_horizontally(4);
    assert_eq!((e.cursor_col(), e.horizontal_scroll_offset()), (79, 0));
    e.move_right();
    assert_eq!((e.cursor_col(), e.horizontal_scroll_offset()), (80, 7));
}

#[test]
fn page_down_and_up() {
    let lines = numbered(50);
    let refs: Vec<&str> = lines.iter().map(|s| s.as_str()).collect();
    let mut e = editor_with(&refs, 80, 12);
    e.page_down();
    assert_eq!((e.scroll_offset(), e.cursor_row()), (12, 21));
    check_invariant(&e);
    e.page_down();
    assert_eq!((e.scroll_offset(), e.cursor_row()), (24, 33));
    e.page_down();
    assert_eq!((e.scroll_offset(), e.cursor_row()), (36, 45));
    e.page_down();
    assert_eq!((e.scroll_offset(), e.cursor_row()), (38, 47));
    e.page_down();
    assert_eq!((e.scroll_offset(), e.cursor_row()), (38, 47));
    e.page_up();
    assert_eq!((e.scroll_offset(), e.cursor_row()), (26, 26));
    for _ in 0..5 {
        e.page_up();
    }
    assert_eq!((e.scroll_offset(), e.cursor_row()), (0, 0));
    check_invariant(&e);
}

#[test]
fn wheel_pulls_window_back_within_last_page() {
    let mut e = editor_with(&["a", "b", "c"], 80, 2);
    assert_eq!((e.height(), e.text_rows()), (2, 1));
    e.move_down();
    e.move_down();
    assert_eq!((e.cursor_row(), e.scroll_offset()), (2, 2));
    e.backspace();
    assert_eq!(text(&e), vec!["a", "bc"]);
    assert_eq!((e.cursor_row(), e.scroll_offset()), (1, 1));
    e.scroll_down();
    assert_eq!((e.cursor_row(), e.scroll_offset()), (0, 0));
    check_invariant(&e);
}

#[test]
fn narrow_window_jumps_by_its_width() {
    let long = "x".repeat(10);
    let mut e = editor_with(&[long.as_str()], 3, 24);
    assert_eq!(e.width(), 3);
    e.move_cursor_horizontally(2);
    assert_eq!(e.horizontal_scroll_offset(), 0);
    e.move_right();
    assert_eq!((e.cursor_col(), e.horizontal_scroll_offset()), (3, 3));
    e.move_cursor_horizontally(4);
    assert_eq!((e.cursor_col(), e.horizontal_scroll_offset()), (7, 6));
    check_invariant(&e);
}

#[test]
fn new_line_then_backspace_restores_lines_and_cursor() {
    let mut e = editor_with(&["x", "abcd", "y"], 80, 24);
    e.move_down();
    e.move_cursor_horizontally(2);
    e.new_line();
    assert_eq!(text(&e), vec!["x", "ab", "cd", "y"]);
    e.backspace();
    assert_eq!(text(&e), vec!["x", "abcd", "y"]);
    assert_eq!((e.cursor_row(), e.cursor_col()), (1, 2));
}

#[test]
fn page_down_on_short_buffer_goes_to_last_line() {
    let mut e = editor_with(&["a", "b", "c"], 80, 24);
    e.page_down();
    assert_eq!((e.scroll_offset(), e.cursor_row()), (0, 2));
}

#[test]
fn typing_inserts_and_tab_puts_four_spaces() {
    let mut e = editor_with(&["ab"], 80, 24);
    e.move_right();
    e.input_char('x');
    assert_eq!(text(&e), vec!["axb"]);
    assert_eq!(e.cursor_col(), 2);
    e.input_tab();
    assert_eq!(text(&e), vec!["ax    b"]);
    assert_eq!(e.cursor_col(), 6);
    e.backspace();
    assert_eq!(text(&e), vec!["ax   b"]);
    assert_eq!(e.cursor_col(), 5);
}

#[test]
fn typing_past_window_scrolls_right() {
    let mut e = editor_with(&[""], 15, 24);
    for c in "abcdefghijklmno".chars() {
        e.input_char(c);
        check_invariant(&e);
    }
    assert_eq!(e.cursor_col(), 15);
    assert_eq!(e.horizontal_scroll_offset(), 7);
    e.new_line();
    assert_eq!((e.cursor_row(), e.cursor_col(), e.horizontal_scroll_offset()), (1, 0, 0));
}

#[test]
fn backspace_at_start_of_buffer_does_nothing() {
    let mut e = editor_with(&["ab"], 80, 24);
    e.backspace();
    assert_eq!(text(&e), vec!["ab"]);
    assert_eq!((e.cursor_row(), e.cursor_col()), (0, 0));
}

#[test]
fn dispatch_in_normal_mode() {
    let mut e = editor_with(&["ab", "cd"], 80, 24);
    assert_eq!(e.handle(Event::Key(Key::ctrl('q'))), Effect::Quit);
    assert_eq!(e.handle(Event::Key(Key::ctrl('w'))), Effect::Save);
    assert_eq!(e.handle(Event::Key(Key::ctrl('r'))), Effect::Reload);
    assert_eq!(e.handle(key(KeyCode::Down)), Effect::Nothing);
    assert_eq!(e.cursor_row(), 1);
    assert_eq!(e.handle(key(KeyCode::Char('z'))), Effect::Nothing);
    assert_eq!(text(&e), vec!["ab", "zcd"]);
    e.handle(key(KeyCode::Enter));
    assert_eq!(text(&e), vec!["ab", "z", "cd"]);
    e.handle(key(KeyCode::Backspace));
    assert_eq!(text(&e), vec!["ab", "zcd"]);
    e.handle(key(KeyCode::Esc));
    assert!(e.show_help());
    e.handle(key(KeyCode::Esc));
    assert!(!e.show_help());
    e.handle(key(KeyCode::Char(':')));
    assert_eq!(e.mode(), Mode::Normal);
    assert_eq!(text(&e), vec!["ab", "z:cd"]);
    e.handle(Event::Other);
    e.handle(key(KeyCode::Other));
    assert_eq!(text(&e), vec!["ab", "z:cd"]);
}

#[test]
fn emacs_bindings_move_cursor() {
    let mut e = Editor::new(None, "emacs", false, 80, 24);
    e.load_lines(vec![chars("ab"), chars("cd")]);
    e.handle(Event::Key(Key::ctrl('n')));
    e.handle(Event::Key(Key::ctrl('f')));
    assert_eq!((e.cursor_row(), e.cursor_col()), (1, 1));
    e.handle(Event::Key(Key::ctrl('p')));
    e.handle(Event::Key(Key::ctrl('b')));
    assert_eq!((e.cursor_row(), e.cursor_col()), (0, 0));
    assert_eq!(e.handle(Event::Key(Key::ctrl('x'))), Effect::Save);
    assert_eq!(e.handle(Event::Key(Key::ctrl('c'))), Effect::Quit);
    let plain_up = Event::Key(Key { code: KeyCode::Down, modifiers: Modifiers::none() });
    e.handle(plain_up);
    assert_eq!(e.cursor_row(), 1);
}

#[test]
fn command_line_builds_and_runs_command() {
    let mut e = Editor::new(None, "atto", true, 80, 24);
    assert_eq!(e.handle(key(KeyCode::Char(':'))), Effect::Nothing);
    assert_eq!(e.mode(), Mode::CommandLine);
    e.handle(key(KeyCode::Char('w')));
    e.handle(key(KeyCode::Char('x')));
    e.handle(key(KeyCode::Backspace));
    e.handle(key(KeyCode::Char('q')));
    assert_eq!(e.command_input().iter().collect::<String>(), "wq");
    assert_eq!(text(&e), vec![""]);
    assert_eq!(e.handle(key(KeyCode::Enter)), Effect::Run(Command::WriteQuit));
    assert_eq!(e.mode(), Mode::Normal);
    assert!(e.command_input().is_empty());
}

#[test]
fn command_line_escape_cancels() {
    let mut e = Editor::new(None, "atto", true, 80, 24);
    e.handle(key(KeyCode::Char(':')));
    e.handle(key(KeyCode::Char('q')));
    assert_eq!(e.handle(key(KeyCode::Esc)), Effect::Nothing);
    assert_eq!(e.mode(), Mode::Normal);
    assert!(e.command_input().is_empty());
    e.handle(key(KeyCode::Char('a')));
    assert_eq!(text(&e), vec!["a"]);
}

#[test]
fn wheel_works_in_command_mode() {
    let lines = numbered(50);
    let refs: Vec<&str> = lines.iter().map(|s| s.as_str()).collect();
    let mut e = Editor::new(None, "atto", true, 80, 12);
    e.load_lines(refs.iter().map(|l| chars(l)).collect());
    e.handle(key(KeyCode::Char(':')));
    e.handle(Event::ScrollDown);
    assert_eq!(e.scroll_offset(), 1);
    assert_eq!(e.mode(), Mode::CommandLine);
    e.handle(Event::ScrollUp);
    assert_eq!(e.scroll_offset(), 0);
}

#[test]
fn execute_command_names_trimmed_command() {
    let mut e = Editor::new(None, "atto", true, 80, 24);
    e.toggle_command_mode();
    for c in "  w  ".chars() {
        e.handle_command_input(c);
    }
    assert_eq!(e.execute_command(), Command::Write);
    assert_eq!(e.mode(), Mode::Normal);
    e.handle_command_input('q');
    assert!(e.command_input().is_empty());
}

#[test]
fn screen_position_and_visible_text() {
    let long = "0123456789abcdefghij";
    let mut e = editor_with(&["a", long], 15, 24);
    e.move_down();
    e.move_cursor_horizontally(16);
    assert_eq!(e.horizontal_scroll_offset(), 7);
    assert_eq!(e.cursor_screen_position(), (5 + 9, 1 + 1));
    assert_eq!(e.visible_text(1).iter().collect::<String>(), "789abcdefghij");
    assert_eq!(e.visible_text(0).iter().collect::<String>(), "");
    assert_eq!(e.visible_rows(), (0, 2));
}

#[test]
fn reload_resets_cursor() {
    let mut e = editor_with(&["abc", "def"], 80, 24);
    e.move_down();
    e.move_right();
    e.load_lines(Vec::new());
    assert_eq!(text(&e), vec![""]);
    assert_eq!((e.cursor_row(), e.cursor_col(), e.scroll_offset()), (0, 0, 0));
}
