use ironjournal::numerals::parse_i16;
use ironjournal::numerals::parse_u32;

#[test]
fn parses_small_numbers() {
    assert_eq!(parse_i16("1"), Some(1));
    assert_eq!(parse_i16("2"), Some(2));
    assert_eq!(parse_i16("25"), Some(25));
    assert_eq!(parse_i16("007"), Some(7));
}

#[test]
fn parses_signed_numbers() {
    assert_eq!(parse_i16("-5"), Some(-5));
    assert_eq!(parse_i16("+7"), Some(7));
    assert_eq!(parse_i16("-0"), Some(0));
}

#[test]
fn rejects_non_numeric_tokens() {
    assert_eq!(parse_i16(""), None);
    assert_eq!(parse_i16("abc"), None);
    assert_eq!(parse_i16("12a"), None);
    assert_eq!(parse_i16("a12"), None);
    assert_eq!(parse_i16("1 2"), None);
    assert_eq!(parse_i16("2\n"), None);
    assert_eq!(parse_i16("-"), None);
    assert_eq!(parse_i16("+"), None);
    assert_eq!(parse_i16("--1"), None);
}

#[test]
fn respects_i16_bounds() {
    assert_eq!(parse_i16("32767"), Some(32767));
    assert_eq!(parse_i16("32768"), None);
    assert_eq!(parse_i16("-32768"), Some(-32768));
    assert_eq!(parse_i16("-32769"), None);
    assert_eq!(parse_i16("99999999999999999999"), None);
}

#[test]
fn parses_unsigned_numbers() {
    assert_eq!(parse_u32("0"), Some(0));
    assert_eq!(parse_u32("1"), Some(1));
    assert_eq!(parse_u32("42"), Some(42));
    assert_eq!(parse_u32("+3"), Some(3));
    assert_eq!(parse_u32("-0"), Some(0));
}

#[test]
fn respects_u32_bounds() {
    assert_eq!(parse_u32("4294967295"), Some(4294967295));
    assert_eq!(parse_u32("4294967296"), None);
    assert_eq!(parse_u32("-1"), None);
    assert_eq!(parse_u32("99999999999999999999"), None);
}

#[test]
fn rejects_non_numeric_unsigned_tokens() {
    assert_eq!(parse_u32(""), None);
    assert_eq!(parse_u32("three"), None);
    assert_eq!(parse_u32("4.5"), None);
}
