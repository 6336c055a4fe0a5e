use issue_export::text::{
    chars_of, decimal_len, parse_u64, push_decimal, push_zero_padded, same_text, text_of,
};

fn decimal(n: u64) -> String {
    let mut out = String::new();
    push_decimal(&mut out, n);
    out
}

fn padded(n: u64, width: usize) -> String {
    let mut out = String::new();
    push_zero_padded(&mut out, n, width);
    out
}

fn parse(s: &str) -> Option<u64> {
    let chars = chars_of(s);
    parse_u64(&chars, 0, chars.len())
}

#[test]
fn decimal_numerals() {
    assert_eq!(decimal(0), "0");
    assert_eq!(decimal(7), "7");
    assert_eq!(decimal(10), "10");
    assert_eq!(decimal(1234567890), "1234567890");
    assert_eq!(decimal(u64::MAX), "18446744073709551615");
}

#[test]
fn decimal_is_appended() {
    let mut out = String::from("n=");
    push_decimal(&mut out, 42);
    assert_eq!(out, "n=42");
}

#[test]
fn decimal_lengths() {
    assert_eq!(decimal_len(0), 1);
    assert_eq!(decimal_len(9), 1);
    assert_eq!(decimal_len(10), 2);
    assert_eq!(decimal_len(999), 3);
    assert_eq!(decimal_len(1000), 4);
    assert_eq!(decimal_len(u64::MAX), 20);
}

#[test]
fn zero_padding() {
    assert_eq!(padded(0, 3), "000");
    assert_eq!(padded(1, 3), "001");
    assert_eq!(padded(42, 3), "042");
    assert_eq!(padded(999, 3), "999");
    assert_eq!(padded(1000, 3), "1000");
    assert_eq!(padded(123456, 3), "123456");
    assert_eq!(padded(5, 0), "5");
    assert_eq!(padded(5, 1), "5");
    assert_eq!(padded(5, 6), "000005");
}

#[test]
fn zero_padding_agrees_with_std() {
    for n in [0u64, 1, 9, 10, 99, 100, 101, 999, 1000, 1001, 65535, u64::MAX] {
        assert_eq!(padded(n, 3), format!("{:03}", n));
        assert_eq!(decimal(n), format!("{}", n));
    }
}

#[test]
fn parsing_numbers() {
    assert_eq!(parse("0"), Some(0));
    assert_eq!(parse("1"), Some(1));
    assert_eq!(parse("+1"), Some(1));
    assert_eq!(parse("0042"), Some(42));
    assert_eq!(parse("18446744073709551615"), Some(u64::MAX));
    assert_eq!(parse("18446744073709551616"), None);
    assert_eq!(parse("99999999999999999999999"), None);
    assert_eq!(parse(""), None);
    assert_eq!(parse("+"), None);
    assert_eq!(parse("++1"), None);
    assert_eq!(parse("-1"), None);
    assert_eq!(parse("1a"), None);
    assert_eq!(parse(" 1"), None);
    assert_eq!(parse("١"), None);
}

#[test]
fn parsing_agrees_with_std() {
    for s in ["0", "7", "+7", "007", "x", "", "+", "1 ", "18446744073709551615", "18446744073709551616"] {
        assert_eq!(parse(s), s.parse::<u64>().ok());
    }
}

#[test]
fn parsing_a_part_of_the_characters() {
    let chars = chars_of("ab123cd");
    assert_eq!(parse_u64(&chars, 2, 5), Some(123));
    assert_eq!(parse_u64(&chars, 2, 6), None);
    assert_eq!(parse_u64(&chars, 3, 3), None);
}

#[test]
fn characters_and_back() {
    let chars = chars_of("héllo");
    assert_eq!(chars, vec!['h', 'é', 'l', 'l', 'o']);
    assert_eq!(text_of(&chars, 0, 5), "héllo");
    assert_eq!(text_of(&chars, 1, 3), "él");
    assert_eq!(text_of(&chars, 2, 2), "");
}

#[test]
fn comparing_texts() {
    assert!(same_text("open", "open"));
    assert!(same_text("", ""));
    assert!(!same_text("open", "opex"));
    assert!(!same_text("open", "opening"));
    assert!(!same_text("open", ""));
}
