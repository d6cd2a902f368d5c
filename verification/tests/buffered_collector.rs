use phrase_reader::buffered::{read_line, read_phrases, InputError};
use phrase_reader::line::strip_line_end;
use phrase_reader::printer::{mark_phrase, show_phrases};

fn lines(items: &[&str]) -> Vec<String> {
    items.iter().map(|s| s.to_string()).collect()
}

#[test]
fn strip_removes_line_feed() {
    assert_eq!(strip_line_end("abc\n"), "abc");
}

#[test]
fn strip_removes_carriage_return_and_line_feed() {
    assert_eq!(strip_line_end("abc\r\n"), "abc");
    assert_eq!(strip_line_end("abc\n\r\n\r"), "abc");
}

#[test]
fn strip_keeps_bare_text() {
    assert_eq!(strip_line_end("abc"), "abc");
    assert_eq!(strip_line_end(""), "");
}

#[test]
fn strip_keeps_inner_line_ends_and_spaces() {
    assert_eq!(strip_line_end("a\nb\n"), "a\nb");
    assert_eq!(strip_line_end("  \n"), "  ");
    assert_eq!(strip_line_end("\ta \n"), "\ta ");
}

#[test]
fn strip_of_line_ends_alone_is_empty() {
    assert_eq!(strip_line_end("\n"), "");
    assert_eq!(strip_line_end("\r\n"), "");
    assert_eq!(strip_line_end("\r\r\n\n"), "");
}

#[test]
fn strip_counts_characters_not_bytes() {
    assert_eq!(strip_line_end("héllo ✓\r\n"), "héllo ✓");
}

#[test]
fn read_line_end_of_stream_is_an_error() {
    assert_eq!(read_line(None), Err(InputError::EndOfInput));
}

#[test]
fn read_line_empty_line_ends() {
    assert_eq!(read_line(Some("")), Ok(None));
    assert_eq!(read_line(Some("\n")), Ok(None));
    assert_eq!(read_line(Some("\r\n")), Ok(None));
}

#[test]
fn read_line_gives_the_phrase_without_its_line_end() {
    assert_eq!(read_line(Some("hello world\n")), Ok(Some("hello world".to_string())));
    assert_eq!(read_line(Some("hello\r\n")), Ok(Some("hello".to_string())));
}

#[test]
fn read_line_spaces_are_a_phrase() {
    assert_eq!(read_line(Some("   \n")), Ok(Some("   ".to_string())));
    assert_eq!(read_line(Some(" ")), Ok(Some(" ".to_string())));
}

#[test]
fn read_phrases_collects_up_to_the_empty_line() {
    let got = read_phrases(&lines(&["red", "green", "blue", ""])).unwrap();
    assert_eq!(got.phrases, lines(&["red", "green", "blue"]));
    assert_eq!(got.reads, 4);
}

#[test]
fn read_phrases_with_line_ends() {
    let got = read_phrases(&lines(&["one\n", "two\r\n", "\n", "three\n"])).unwrap();
    assert_eq!(got.phrases, lines(&["one", "two"]));
    assert_eq!(got.reads, 3);
}

#[test]
fn read_phrases_empty_line_first() {
    let got = read_phrases(&lines(&["", "late"])).unwrap();
    assert_eq!(got.phrases, Vec::<String>::new());
    assert_eq!(got.reads, 1);
}

#[test]
fn read_phrases_does_not_look_behind_the_empty_line() {
    let got = read_phrases(&lines(&["a", "", "b", ""])).unwrap();
    assert_eq!(got.phrases, lines(&["a"]));
    assert_eq!(got.reads, 2);
}

#[test]
fn read_phrases_keeps_a_line_of_spaces() {
    let got = read_phrases(&lines(&["a", "   ", "b", ""])).unwrap();
    assert_eq!(got.phrases, lines(&["a", "   ", "b"]));
    assert_eq!(got.reads, 4);
}

#[test]
fn read_phrases_keeps_repeated_phrases() {
    let got = read_phrases(&lines(&["x", "x", ""])).unwrap();
    assert_eq!(got.phrases, lines(&["x", "x"]));
}

#[test]
fn read_phrases_without_empty_line_is_end_of_input() {
    assert_eq!(read_phrases(&lines(&["a", "b"])).unwrap_err(), InputError::EndOfInput);
    assert_eq!(read_phrases(&lines(&[])).unwrap_err(), InputError::EndOfInput);
}

#[test]
fn mark_phrase_wraps_in_markers() {
    assert_eq!(mark_phrase("red"), ">>> red <<<");
    assert_eq!(mark_phrase(""), ">>>  <<<");
}

#[test]
fn show_phrases_of_nothing_is_the_header() {
    assert_eq!(show_phrases(&Vec::new()), lines(&["Here are the phrases you entered:"]));
}

#[test]
fn collected_phrases_are_listed_in_order() {
    let got = read_phrases(&lines(&["red", "green", "blue", ""])).unwrap();
    let out = show_phrases(&got.phrases);
    assert_eq!(out[0], "Here are the phrases you entered:");
    assert_eq!(out[1..].to_vec(), lines(&[">>> red <<<", ">>> green <<<", ">>> blue <<<"]));
    assert_eq!(out.len(), 4);
}
