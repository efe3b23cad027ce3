use atto::buffer::TextBuffer;
use atto::text::{lines_from_text, text_of};

fn chars(s: &str) -> Vec<char> {
    s.chars().collect()
}

fn strings(lines: &[Vec<char>]) -> Vec<String> {
    lines.iter().map(|l| l.iter().collect()).collect()
}

#[test]
fn lines_are_cut_at_line_feeds() {
    assert_eq!(strings(&lines_from_text(&chars("a\nb"))), vec!["a", "b"]);
    assert_eq!(strings(&lines_from_text(&chars("a\nb\n"))), vec!["a", "b"]);
    assert_eq!(strings(&lines_from_text(&chars("a\r\nb\r\n"))), vec!["a", "b"]);
    assert_eq!(strings(&lines_from_text(&chars("a\n\nb"))), vec!["a", "", "b"]);
    assert_eq!(strings(&lines_from_text(&chars("a\rb"))), vec!["a\rb"]);
}

#[test]
fn empty_text_is_one_empty_line() {
    assert_eq!(strings(&lines_from_text(&chars(""))), vec![""]);
    assert_eq!(strings(&lines_from_text(&chars("\n"))), vec![""]);
}

#[test]
fn each_line_gets_one_terminator() {
    let b = TextBuffer::from_lines(vec![chars("ab"), chars(""), chars("c")]);
    assert_eq!(text_of(&b).iter().collect::<String>(), "ab\n\nc\n");
    assert_eq!(text_of(&TextBuffer::new()).iter().collect::<String>(), "\n");
}

#[test]
fn saved_text_loads_back() {
    let lines = vec![chars("one"), chars(""), chars("three")];
    let b = TextBuffer::from_lines(lines.clone());
    assert_eq!(lines_from_text(&text_of(&b)), lines);
}
