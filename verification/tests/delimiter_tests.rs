use rserial::delimiter::{find_any_newline, find_delimiter};

#[test]
fn finds_first_occurrence_of_a_delimiter() {
    assert_eq!(find_delimiter(b"abcabc", b"bc"), Some(1));
    assert_eq!(find_delimiter(b"abcabc", b"abcabc"), Some(0));
    assert_eq!(find_delimiter(b"xxab", b"ab"), Some(2));
    assert_eq!(find_delimiter(b"aab", b"ab"), Some(1));
}

#[test]
fn finds_nothing_for_an_empty_or_too_long_or_absent_delimiter() {
    assert_eq!(find_delimiter(b"abc", b""), None);
    assert_eq!(find_delimiter(b"", b""), None);
    assert_eq!(find_delimiter(b"ab", b"abc"), None);
    assert_eq!(find_delimiter(b"abc", b"x"), None);
    assert_eq!(find_delimiter(b"", b"x"), None);
}

#[test]
fn crlf_is_one_line_ending_of_length_two() {
    assert_eq!(find_any_newline(b"a\r\nb"), Some((1, 2)));
    assert_eq!(find_any_newline(b"\r\n"), Some((0, 2)));
}

#[test]
fn a_lone_cr_or_lf_is_a_line_ending_of_length_one() {
    assert_eq!(find_any_newline(b"a\rb"), Some((1, 1)));
    assert_eq!(find_any_newline(b"a\nb"), Some((1, 1)));
    assert_eq!(find_any_newline(b"a\r"), Some((1, 1)));
    assert_eq!(find_any_newline(b"\n\r"), Some((0, 1)));
    assert_eq!(find_any_newline(b"ab\r\r\n"), Some((2, 1)));
}

#[test]
fn data_without_cr_or_lf_has_no_line_ending() {
    assert_eq!(find_any_newline(b"ab"), None);
    assert_eq!(find_any_newline(b""), None);
}
