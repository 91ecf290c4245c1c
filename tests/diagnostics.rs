use clowc::diagnostic::{first_line, push_decimal, Error, ParseError};

#[test]
fn renders_unterminated_string_on_second_line() {
    let buffer = "let x = 1\nbad string\n";
    let e = ParseError(Error::UnterminatedString, ("file.clo", buffer), (2, 5, 10));
    assert_eq!(
        e.render(),
        "Error on file.clo:2:5> Unterminated string literal\n  bad string"
    );
}

#[test]
fn renders_last_line_without_terminator() {
    let buffer = "let x = 1\nbad string";
    let e = ParseError(Error::UnterminatedString, ("file.clo", buffer), (2, 5, 10));
    assert_eq!(
        e.render(),
        "Error on file.clo:2:5> Unterminated string literal\n  bad string"
    );
}

#[test]
fn renders_first_line() {
    let buffer = "\"open\nnext";
    let e = ParseError(Error::UnterminatedString, ("a.clo", buffer), (1, 1, 0));
    assert_eq!(e.render(), "Error on a.clo:1:1> Unterminated string literal\n  \"open");
}

#[test]
fn renders_line_ended_by_crlf() {
    let buffer = "a\r\nbad \"x\r\nz";
    let e = ParseError(Error::UnterminatedString, ("w.clo", buffer), (2, 5, 3));
    assert_eq!(e.render(), "Error on w.clo:2:5> Unterminated string literal\n  bad \"x");
}

#[test]
fn renders_empty_rest_of_buffer() {
    let buffer = "x\n";
    let e = ParseError(Error::UnterminatedString, ("e.clo", buffer), (2, 1, 2));
    assert_eq!(e.render(), "Error on e.clo:2:1> Unterminated string literal\n  ");
}

#[test]
fn renders_empty_line() {
    let buffer = "x\n\ny";
    let e = ParseError(Error::UnterminatedString, ("e.clo", buffer), (2, 1, 2));
    assert_eq!(e.render(), "Error on e.clo:2:1> Unterminated string literal\n  ");
}

#[test]
fn renders_multibyte_line() {
    let buffer = "h\u{e9}llo\nw\u{f6}rld \"\u{1f600}\nend";
    let e = ParseError(Error::UnterminatedString, ("u.clo", buffer), (2, 7, 7));
    assert_eq!(
        e.render(),
        "Error on u.clo:2:7> Unterminated string literal\n  w\u{f6}rld \"\u{1f600}"
    );
}

#[test]
fn renders_multi_digit_positions() {
    let buffer = "q";
    let e = ParseError(Error::UnterminatedString, ("big.clo", buffer), (1203, 40, 0));
    assert_eq!(e.render(), "Error on big.clo:1203:40> Unterminated string literal\n  q");
}

#[test]
fn renders_zero_and_largest_positions() {
    let buffer = "q";
    let e = ParseError(Error::UnterminatedString, ("", buffer), (0, usize::MAX, 0));
    let expected = format!("Error on :0:{}> Unterminated string literal\n  q", usize::MAX);
    assert_eq!(e.render(), expected);
}

#[test]
fn message_of_unterminated_string() {
    assert_eq!(Error::UnterminatedString.message_text(), "Unterminated string literal");
}

#[test]
fn first_line_stops_at_line_feed() {
    assert_eq!(first_line("ab\ncd"), "ab");
    assert_eq!(first_line("ab\r\ncd"), "ab");
    assert_eq!(first_line("ab\rcd"), "ab\rcd");
    assert_eq!(first_line("abcd"), "abcd");
    assert_eq!(first_line("\nabcd"), "");
    assert_eq!(first_line(""), "");
}

#[test]
fn push_decimal_appends_numeral() {
    let mut s = String::from("n=");
    push_decimal(&mut s, 0);
    assert_eq!(s, "n=0");
    push_decimal(&mut s, 907);
    assert_eq!(s, "n=0907");
    let mut t = String::new();
    push_decimal(&mut t, 18446744073709551615);
    assert_eq!(t, "18446744073709551615");
}

#[test]
fn errors_compare_by_fields() {
    let buffer = "s";
    let a = ParseError(Error::UnterminatedString, ("f", buffer), (1, 1, 0));
    let b = a;
    assert!(a == b);
    assert!(a != ParseError(Error::UnterminatedString, ("f", buffer), (1, 2, 0)));
}
