use baru::error::Error;
use baru::text::{parse_i32, trim_ascii};

#[test]
fn parse_plain_and_signed() {
    assert_eq!(parse_i32("87213"), Ok(87213));
    assert_eq!(parse_i32("0"), Ok(0));
    assert_eq!(parse_i32("007"), Ok(7));
    assert_eq!(parse_i32("-42"), Ok(-42));
    assert_eq!(parse_i32("+7"), Ok(7));
}

#[test]
fn parse_at_the_bounds() {
    assert_eq!(parse_i32("2147483647"), Ok(i32::MAX));
    assert_eq!(parse_i32("-2147483648"), Ok(i32::MIN));
    assert!(matches!(parse_i32("2147483648"), Err(Error::Parse(_))));
    assert!(matches!(parse_i32("-2147483649"), Err(Error::Parse(_))));
    assert!(matches!(
        parse_i32("99999999999999999999999"),
        Err(Error::Parse(_))
    ));
}

#[test]
fn parse_rejects_malformed_input() {
    assert!(matches!(parse_i32(""), Err(Error::Parse(m)) if m.is_empty()));
    assert!(matches!(parse_i32("+"), Err(Error::Parse(_))));
    assert!(matches!(parse_i32("-"), Err(Error::Parse(_))));
    assert!(matches!(parse_i32("12a"), Err(Error::Parse(m)) if m == "12a"));
    assert!(matches!(parse_i32("a12"), Err(Error::Parse(_))));
    assert!(matches!(parse_i32(" 12"), Err(Error::Parse(_))));
    assert!(matches!(parse_i32("1 2"), Err(Error::Parse(_))));
    assert!(matches!(parse_i32("--1"), Err(Error::Parse(_))));
}

#[test]
fn parse_agrees_with_the_standard_parser() {
    for s in ["87213", "-42", "+7", "2147483647", "-2147483648", "", "x", "07"] {
        assert_eq!(parse_i32(s).ok(), s.parse::<i32>().ok());
    }
}

#[test]
fn trim_strips_ascii_whitespace() {
    assert_eq!(trim_ascii(" \n87213\t \r"), "87213");
    assert_eq!(trim_ascii("Full\n"), "Full");
    assert_eq!(trim_ascii("abc"), "abc");
    assert_eq!(trim_ascii("a b"), "a b");
    assert_eq!(trim_ascii(" \n\t\r"), "");
    assert_eq!(trim_ascii(""), "");
}
