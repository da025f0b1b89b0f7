use binance_connector::decimal::{parse_unsigned, signed_text, unsigned_text};

#[test]
fn unsigned_text_matches_format() {
    for n in [0u64, 7, 9, 10, 42, 100, 1234567890, u64::MAX] {
        assert_eq!(unsigned_text(n), format!("{}", n));
    }
}

#[test]
fn signed_text_matches_format() {
    for n in [0i64, 5, -5, -1121, 400, i64::MIN, i64::MAX, i16::MIN as i64] {
        assert_eq!(signed_text(n), format!("{}", n));
    }
}

#[test]
fn parse_unsigned_plain_numbers() {
    assert_eq!(parse_unsigned("0"), Some(0));
    assert_eq!(parse_unsigned("8389765519"), Some(8389765519));
    assert_eq!(parse_unsigned("007"), Some(7));
    assert_eq!(parse_unsigned("+12"), Some(12));
    assert_eq!(parse_unsigned("18446744073709551615"), Some(u64::MAX));
}

#[test]
fn parse_unsigned_rejects() {
    assert_eq!(parse_unsigned(""), None);
    assert_eq!(parse_unsigned("+"), None);
    assert_eq!(parse_unsigned("-"), None);
    assert_eq!(parse_unsigned("-1"), None);
    assert_eq!(parse_unsigned("++1"), None);
    assert_eq!(parse_unsigned("12a"), None);
    assert_eq!(parse_unsigned(" 12"), None);
    assert_eq!(parse_unsigned("18446744073709551616"), None);
    assert_eq!(parse_unsigned("99999999999999999999x"), None);
}

#[test]
fn parse_unsigned_agrees_with_std() {
    let cases = [
        "", "0", "1", "+", "-", "+0", "-0", "00", "5000", "abc", "1.5", "1e3", "٣", "+-1",
        "18446744073709551615", "18446744073709551616", "000000000000000000000001",
        "184467440737095516150", "42 ", "\u{0}",
    ];
    for c in cases {
        assert_eq!(parse_unsigned(c), c.parse::<u64>().ok(), "case {:?}", c);
    }
}

#[test]
fn parse_inverts_text_on_values() {
    for n in [0u64, 1, 19, 20, 999, 1000, u64::MAX - 1, u64::MAX] {
        assert_eq!(parse_unsigned(&unsigned_text(n)), Some(n));
        assert_eq!(parse_unsigned(&format!("+{}", unsigned_text(n))), Some(n));
    }
}
