use pathscan::text::{append_decimal, parse_number};

fn decimal_of(n: u64) -> String {
    let mut out = String::new();
    append_decimal(&mut out, n);
    out
}

#[test]
fn zero_is_written_as_one_digit() {
    assert_eq!(decimal_of(0), "0");
}

#[test]
fn single_digits_are_written_as_themselves() {
    assert_eq!(decimal_of(7), "7");
    assert_eq!(decimal_of(9), "9");
}

#[test]
fn numbers_are_written_most_significant_digit_first() {
    assert_eq!(decimal_of(10), "10");
    assert_eq!(decimal_of(240), "240");
    assert_eq!(decimal_of(1234567890), "1234567890");
}

#[test]
fn the_largest_number_is_written_in_full() {
    assert_eq!(decimal_of(u64::MAX), "18446744073709551615");
}

#[test]
fn a_number_is_appended_after_what_is_there() {
    let mut out = String::from("n=");
    append_decimal(&mut out, 305);
    assert_eq!(out, "n=305");
}

#[test]
fn decimal_agrees_with_the_standard_formatting() {
    for n in [0u64, 1, 9, 10, 11, 99, 100, 101, 999, 1000, 65535, 4294967296] {
        assert_eq!(decimal_of(n), format!("{}", n));
    }
}

#[test]
fn digits_are_read_as_a_number() {
    assert_eq!(parse_number("240"), Some(240));
    assert_eq!(parse_number("0"), Some(0));
    assert_eq!(parse_number("7"), Some(7));
}

#[test]
fn leading_zeros_are_accepted() {
    assert_eq!(parse_number("007"), Some(7));
    assert_eq!(parse_number("000"), Some(0));
}

#[test]
fn a_leading_plus_sign_is_accepted() {
    assert_eq!(parse_number("+15"), Some(15));
}

#[test]
fn a_sign_alone_is_no_number() {
    assert_eq!(parse_number("+"), None);
    assert_eq!(parse_number("-"), None);
}

#[test]
fn the_empty_text_is_no_number() {
    assert_eq!(parse_number(""), None);
}

#[test]
fn a_minus_sign_is_not_accepted() {
    assert_eq!(parse_number("-5"), None);
    assert_eq!(parse_number("-0"), None);
}

#[test]
fn a_second_sign_is_not_accepted() {
    assert_eq!(parse_number("++5"), None);
    assert_eq!(parse_number("5+"), None);
    assert_eq!(parse_number("+5+"), None);
}

#[test]
fn spaces_and_separators_are_not_accepted() {
    assert_eq!(parse_number(" 5"), None);
    assert_eq!(parse_number("5 "), None);
    assert_eq!(parse_number("1_000"), None);
    assert_eq!(parse_number("1,000"), None);
    assert_eq!(parse_number("1.5"), None);
}

#[test]
fn letters_are_not_accepted() {
    assert_eq!(parse_number("abc"), None);
    assert_eq!(parse_number("12a"), None);
    assert_eq!(parse_number("0x10"), None);
}

#[test]
fn digits_of_other_scripts_are_not_accepted() {
    assert_eq!(parse_number("\u{661}\u{662}"), None);
    assert_eq!(parse_number("1\u{e9}"), None);
}

#[test]
fn the_largest_number_is_read() {
    let text = format!("{}", usize::MAX);
    assert_eq!(parse_number(&text), Some(usize::MAX));
}

#[test]
fn a_number_too_large_is_rejected() {
    let text = format!("{}0", usize::MAX);
    assert_eq!(parse_number(&text), None);
    let next = format!("{}", usize::MAX as u128 + 1);
    assert_eq!(parse_number(&next), None);
    assert_eq!(parse_number("99999999999999999999999999999999999999999"), None);
}

#[test]
fn reading_agrees_with_the_standard_parser() {
    for text in ["", "+", "-", "0", "+0", "-0", "12", "+12", "-12", "012", " 12", "12 ", "1e3",
        "18446744073709551615", "18446744073709551616", "++1", "1+1"] {
        assert_eq!(parse_number(text), text.parse::<usize>().ok(), "{:?}", text);
    }
}

#[test]
fn writing_and_reading_give_the_number_back() {
    for n in [0u64, 5, 10, 99, 100, 240, 4096, 1 << 40] {
        assert_eq!(parse_number(&decimal_of(n)), Some(n as usize));
    }
}
