use itunes_xml::num::{parse_i64, parse_u64};

#[test]
fn parses_plain_integers() {
    assert_eq!(parse_i64("0"), Some(0));
    assert_eq!(parse_i64("128"), Some(128));
    assert_eq!(parse_i64("-42"), Some(-42));
    assert_eq!(parse_i64("+5"), Some(5));
    assert_eq!(parse_i64("007"), Some(7));
}

#[test]
fn parses_signed_extremes() {
    assert_eq!(parse_i64("9223372036854775807"), Some(i64::MAX));
    assert_eq!(parse_i64("-9223372036854775808"), Some(i64::MIN));
    assert_eq!(parse_i64("9223372036854775808"), None);
    assert_eq!(parse_i64("-9223372036854775809"), None);
    assert_eq!(parse_i64("99999999999999999999999"), None);
}

#[test]
fn rejects_non_numerals() {
    assert_eq!(parse_i64(""), None);
    assert_eq!(parse_i64("-"), None);
    assert_eq!(parse_i64("+"), None);
    assert_eq!(parse_i64("12x"), None);
    assert_eq!(parse_i64("abc"), None);
    assert_eq!(parse_i64(" 5"), None);
    assert_eq!(parse_i64("5 "), None);
}

#[test]
fn parses_unsigned_extremes() {
    assert_eq!(parse_u64("18446744073709551615"), Some(u64::MAX));
    assert_eq!(parse_u64("18446744073709551616"), None);
    assert_eq!(parse_u64("+7"), Some(7));
    assert_eq!(parse_u64("-1"), None);
    assert_eq!(parse_u64(""), None);
    assert_eq!(parse_u64("5994"), Some(5994));
}

#[test]
fn agrees_with_the_standard_parser() {
    for s in ["0", "-1", "+17", "128", "9223372036854775807", "-9223372036854775808",
        "9223372036854775808", "12x", "", "00100"] {
        assert_eq!(parse_i64(s), s.parse::<i64>().ok(), "on {:?}", s);
    }
    for s in ["0", "5994", "18446744073709551615", "18446744073709551616", "-1", "+3", "x"] {
        assert_eq!(parse_u64(s), s.parse::<u64>().ok(), "on {:?}", s);
    }
}
