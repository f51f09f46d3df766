use barstatus::read_line::{LineReader, ReadLineError};
use barstatus::text::{chars_of, contains_chars, fields_of, lines_of, parse_u64, parse_u8, trim_chars};

fn cs(s: &str) -> Vec<char> {
    s.chars().collect()
}

#[test]
fn parses_like_str_parse() {
    assert_eq!(parse_u64(&cs("42")), Some(42));
    assert_eq!(parse_u64(&cs("+42")), Some(42));
    assert_eq!(parse_u64(&cs("")), None);
    assert_eq!(parse_u64(&cs("+")), None);
    assert_eq!(parse_u64(&cs("4 2")), None);
    assert_eq!(parse_u64(&cs("18446744073709551615")), Some(u64::MAX));
    assert_eq!(parse_u64(&cs("18446744073709551616")), None);
    assert_eq!(parse_u8(&cs("255")), Some(255));
    assert_eq!(parse_u8(&cs("256")), None);
}

#[test]
fn trims_and_splits_like_std() {
    assert_eq!(trim_chars(&cs(" \t a b \u{3000}\n")), cs("a b"));
    assert_eq!(trim_chars(&cs("   ")), cs(""));
    assert_eq!(fields_of(&cs("  cpu  1 22\t333\n")), vec![cs("cpu"), cs("1"), cs("22"), cs("333")]);
    assert_eq!(lines_of(&cs("a\r\n\nb")), vec![cs("a"), cs(""), cs("b")]);
    assert_eq!(lines_of(&cs("a\n")), vec![cs("a")]);
    assert_eq!(lines_of(&cs("a\r")), vec![cs("a\r")]);
    assert_eq!(lines_of(&cs("a\r\nb\r")), vec![cs("a"), cs("b\r")]);
    assert_eq!(lines_of(&cs("")), Vec::<Vec<char>>::new());
    assert!(contains_chars(&cs("core-linux-6"), &cs("linux")));
    assert!(!contains_chars(&cs("linu"), &cs("linux")));
    assert_eq!(chars_of("h\u{e9}"), vec!['h', '\u{e9}']);
}

#[test]
fn line_reader_stops_at_the_first_newline() {
    let mut r = LineReader::new(16);
    r.on_chunk(b"12 3");
    assert!(!r.is_finished());
    assert_eq!(r.room(), 13);
    r.on_chunk(b"4\nmore\nrest");
    assert!(r.is_finished());
    assert_eq!(r.finish().unwrap(), "12 34");
    let mut r = LineReader::new(8);
    r.on_chunk(b"a\nb\n");
    assert_eq!(r.finish().unwrap(), "a");
}

#[test]
fn line_reader_end_of_file_and_capacity() {
    let mut r = LineReader::new(8);
    r.on_chunk(b"abc");
    r.on_chunk(b"");
    assert!(r.is_finished());
    assert_eq!(r.finish().unwrap(), "abc");
    let mut r = LineReader::new(4);
    r.on_chunk(b"abcd");
    assert!(!r.is_finished());
    r.on_chunk(b"\n");
    assert_eq!(r.finish().unwrap(), "abcd");
    let mut r = LineReader::new(4);
    r.on_chunk(b"abcde");
    assert!(r.is_finished());
    assert_eq!(r.finish(), Err(ReadLineError::Capacity));
    let mut r = LineReader::new(4);
    r.on_chunk(&[0xff, b'a']);
    r.on_chunk(b"");
    assert_eq!(r.finish(), Err(ReadLineError::Utf8));
}
