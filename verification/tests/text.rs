use discidium::api::text::{
    decimal_string, join, parse_decimal, parse_u16, parse_usize, strip_quotes, text_eq,
};

#[test]
fn parse_decimal_reads_plain_digits() {
    assert_eq!(parse_decimal("0", u64::MAX), Some(0));
    assert_eq!(parse_decimal("41250", u64::MAX), Some(41250));
    assert_eq!(parse_decimal("007", u64::MAX), Some(7));
    assert_eq!(parse_decimal("+12", u64::MAX), Some(12));
}

#[test]
fn parse_decimal_rejects_what_is_no_number() {
    assert_eq!(parse_decimal("", u64::MAX), None);
    assert_eq!(parse_decimal("+", u64::MAX), None);
    assert_eq!(parse_decimal("-1", u64::MAX), None);
    assert_eq!(parse_decimal("12a", u64::MAX), None);
    assert_eq!(parse_decimal(" 12", u64::MAX), None);
    assert_eq!(parse_decimal("１２", u64::MAX), None);
}

#[test]
fn parse_decimal_agrees_with_std() {
    let samples = [
        "0", "1", "9", "10", "65535", "65536", "18446744073709551615", "18446744073709551616",
        "99999999999999999999", "+5", "++5", "5+", "", "x", "1 ", "000000000000000000000001",
    ];
    for s in samples {
        assert_eq!(parse_decimal(s, u64::MAX), s.parse::<u64>().ok(), "{}", s);
        assert_eq!(parse_u16(s), s.parse::<u16>().ok(), "{}", s);
        assert_eq!(parse_usize(s), s.parse::<usize>().ok(), "{}", s);
    }
}

#[test]
fn parse_decimal_respects_the_bound() {
    assert_eq!(parse_decimal("255", 255), Some(255));
    assert_eq!(parse_decimal("256", 255), None);
    assert_eq!(parse_decimal("18446744073709551615", u64::MAX), Some(u64::MAX));
    assert_eq!(parse_decimal("18446744073709551616", u64::MAX), None);
}

#[test]
fn decimal_string_writes_what_std_writes() {
    for n in [0u64, 1, 9, 10, 11, 99, 100, 101, 41250, u64::MAX] {
        assert_eq!(decimal_string(n), n.to_string());
    }
}

#[test]
fn decimal_round_trip() {
    for n in [0u64, 7, 10, 4096, 1234567890123456789, u64::MAX] {
        assert_eq!(parse_decimal(&decimal_string(n), u64::MAX), Some(n));
    }
}

#[test]
fn strip_quotes_removes_only_quotes() {
    assert_eq!(strip_quotes("\"wss://example/gateway\""), "wss://example/gateway");
    assert_eq!(strip_quotes("plain"), "plain");
    assert_eq!(strip_quotes("a\"b\"c"), "abc");
    assert_eq!(strip_quotes(""), "");
    assert_eq!(strip_quotes("é\"ü"), "éü");
}

#[test]
fn text_eq_compares_characters() {
    assert!(text_eq("READY", "READY"));
    assert!(!text_eq("READY", "ready"));
    assert!(!text_eq("READY", "READY "));
    assert!(text_eq("", ""));
}

#[test]
fn join_puts_the_separator_between_neighbours() {
    let none: Vec<String> = vec![];
    assert_eq!(join(&none, ", "), "");
    assert_eq!(join(&vec!["ada".to_string()], ", "), "ada");
    assert_eq!(join(&vec!["ada".to_string(), "bob".to_string()], ", "), "ada, bob");
    assert_eq!(
        join(&vec!["a".to_string(), "".to_string(), "c".to_string()], "--"),
        "a----c"
    );
}

#[test]
fn join_agrees_with_std() {
    let parts = vec!["x".to_string(), "yy".to_string(), "zzz".to_string(), "".to_string()];
    for sep in ["", ",", ", ", "é"] {
        assert_eq!(join(&parts, sep), parts.join(sep));
    }
}
