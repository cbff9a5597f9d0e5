//! Keycode normalization and the checked decimal parser.

use clubfridge_neo::database::Member;
use clubfridge_neo::digits::parse_u32;
use clubfridge_neo::vereinsflieger::Key;

fn check(input: &str, expected: Option<&str>) {
    let key = Key { name: input.to_string(), title: "".to_string() };

    assert_eq!(Member::parse_keycode(key).as_deref(), expected);
}

#[test]
fn test_keycode_conversion() {
    check("0005635570", Some("0005635570"));
    check("055FDF2", Some("0005635570"));
    check("S2017, A2711, 20€", None);
    check("20 Euro", None);
}

#[test]
fn keycode_hex_lower_and_upper_case() {
    check("055fdf2", Some("0005635570"));
    check("0000000", Some("0000000000"));
    check("fffffff", Some("0268435455"));
}

#[test]
fn keycode_wrong_lengths_rejected() {
    check("", None);
    check("123456789", None);
    check("12345678901", None);
    check("55FDF2", None);
    check("055FDG2", None);
    check("000563557x", None);
}

#[test]
fn parse_u32_accepts_digits_and_plus() {
    assert_eq!(parse_u32("123"), Some(123));
    assert_eq!(parse_u32("+5"), Some(5));
    assert_eq!(parse_u32("0007"), Some(7));
    assert_eq!(parse_u32("4294967295"), Some(u32::MAX));
    assert_eq!(parse_u32("00000000000000042"), Some(42));
}

#[test]
fn parse_u32_rejects_bad_input() {
    assert_eq!(parse_u32(""), None);
    assert_eq!(parse_u32("+"), None);
    assert_eq!(parse_u32("abc"), None);
    assert_eq!(parse_u32("12a"), None);
    assert_eq!(parse_u32("-1"), None);
    assert_eq!(parse_u32("4294967296"), None);
    assert_eq!(parse_u32("99999999999999999999"), None);
}
