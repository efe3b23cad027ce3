use atto::buffer::TextBuffer;

fn chars(s: &str) -> Vec<char> {
    s.chars().collect()
}

fn buffer_of(lines: &[&str]) -> TextBuffer {
    TextBuffer::from_lines(lines.iter().map(|l| chars(l)).collect())
}

fn lines_of(b: &TextBuffer) -> Vec<String> {
    (0..b.len()).map(|i| b.line(i).iter().collect()).collect()
}

#[test]
fn empty_buffer_is_one_empty_line() {
    let b = TextBuffer::new();
    assert_eq!(lines_of(&b), vec![""]);
    let b = TextBuffer::from_lines(Vec::new());
    assert_eq!(lines_of(&b), vec![""]);
}

#[test]
fn char_edits_keep_line_count() {
    let mut b = buffer_of(&["ab", "cd"]);
    b.insert_char(0, 1, 'x');
    assert_eq!(lines_of(&b), vec!["axb", "cd"]);
    b.insert_char(1, 2, 'y');
    assert_eq!(lines_of(&b), vec!["axb", "cdy"]);
    b.delete_char(0, 0);
    assert_eq!(lines_of(&b), vec!["xb", "cdy"]);
    b.delete_char(1, 2);
    assert_eq!(lines_of(&b), vec!["xb", "cd"]);
    assert_eq!(b.len(), 2);
}

#[test]
fn out_of_bounds_char_edits_do_nothing() {
    let mut b = buffer_of(&["ab"]);
    b.insert_char(0, 3, 'x');
    b.insert_char(1, 0, 'x');
    b.delete_char(0, 2);
    b.delete_char(5, 0);
    assert_eq!(lines_of(&b), vec!["ab"]);
}

#[test]
fn split_at_end_of_line() {
    let mut b = buffer_of(&["abc"]);
    b.split_line(0, 3);
    assert_eq!(lines_of(&b), vec!["abc", ""]);
}

#[test]
fn split_in_middle_and_clamped() {
    let mut b = buffer_of(&["abc", "z"]);
    b.split_line(0, 1);
    assert_eq!(lines_of(&b), vec!["a", "bc", "z"]);
    b.split_line(2, 9);
    assert_eq!(lines_of(&b), vec!["a", "bc", "z", ""]);
    b.split_line(7, 0);
    assert_eq!(b.len(), 4);
}

#[test]
fn join_appends_to_previous_line() {
    let mut b = buffer_of(&["ab", "cd"]);
    b.join_with_previous(1);
    assert_eq!(lines_of(&b), vec!["abcd"]);
    b.join_with_previous(0);
    assert_eq!(lines_of(&b), vec!["abcd"]);
}

#[test]
fn split_then_join_restores_buffer() {
    for col in 0..=4 {
        let mut b = buffer_of(&["x", "abcd", "y"]);
        b.split_line(1, col);
        assert_eq!(b.len(), 4);
        b.join_with_previous(2);
        assert_eq!(lines_of(&b), vec!["x", "abcd", "y"]);
    }
}
