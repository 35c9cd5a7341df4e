use blog::cookie::{cookie_id, cookie_password, parse_u32};

#[test]
fn parse_plain_numbers() {
    assert_eq!(parse_u32("0"), Some(0));
    assert_eq!(parse_u32("42"), Some(42));
    assert_eq!(parse_u32("007"), Some(7));
    assert_eq!(parse_u32("4294967295"), Some(u32::MAX));
}

#[test]
fn parse_leading_plus() {
    assert_eq!(parse_u32("+7"), Some(7));
    assert_eq!(parse_u32("+"), None);
    assert_eq!(parse_u32("++7"), None);
}

#[test]
fn parse_rejects_what_is_not_a_number() {
    assert_eq!(parse_u32(""), None);
    assert_eq!(parse_u32("-1"), None);
    assert_eq!(parse_u32("-"), None);
    assert_eq!(parse_u32("12a"), None);
    assert_eq!(parse_u32(" 1"), None);
    assert_eq!(parse_u32("1 "), None);
    assert_eq!(parse_u32("\u{663}"), None);
    assert_eq!(parse_u32("1.0"), None);
}

#[test]
fn parse_rejects_overflow() {
    assert_eq!(parse_u32("4294967296"), None);
    assert_eq!(parse_u32("99999999999999999999999"), None);
    assert_eq!(parse_u32("+4294967296"), None);
    assert_eq!(parse_u32("4294967296x"), None);
}

#[test]
fn parse_agrees_with_std() {
    let samples = [
        "", "0", "1", "+1", "-0", "+", "-", "00000000000000000000000012", "4294967295",
        "4294967296", "18446744073709551616", "12345", "12 345", "0x10", "1e3", "+-1", "é1",
        "1é", "\u{ff11}", "  ", "429496729", "4294967290", "4294967299",
    ];
    for s in samples.iter() {
        assert_eq!(parse_u32(s), s.parse::<u32>().ok(), "input {:?}", s);
    }
}

#[test]
fn decimal_text_reads_back() {
    let samples = [0u32, 1, 9, 10, 99, 100, 12345, 4_000_000_000, u32::MAX];
    for n in samples.iter() {
        assert_eq!(parse_u32(&n.to_string()), Some(*n));
    }
}

#[test]
fn id_cookie_defaults_to_zero() {
    assert_eq!(cookie_id(None), 0);
    assert_eq!(cookie_id(Some("abc")), 0);
    assert_eq!(cookie_id(Some("")), 0);
    assert_eq!(cookie_id(Some("4294967296")), 0);
    assert_eq!(cookie_id(Some("15")), 15);
}

#[test]
fn password_cookie_defaults_to_empty() {
    assert_eq!(cookie_password(None), "");
    assert_eq!(cookie_password(Some("secret".to_string())), "secret");
}
