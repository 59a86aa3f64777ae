use workshop_cleaner::content_id::{parse_app_id, parse_decimal, ContentId};

#[test]
fn parse_accepts_digit_names() {
    assert_eq!(ContentId::parse("100"), Some(ContentId(100)));
    assert_eq!(ContentId::parse("0"), Some(ContentId(0)));
    assert_eq!(ContentId::parse("1234567890"), Some(ContentId(1234567890)));
}

#[test]
fn parse_rejects_other_names() {
    assert_eq!(ContentId::parse(""), None);
    assert_eq!(ContentId::parse("abc"), None);
    assert_eq!(ContentId::parse("12a"), None);
    assert_eq!(ContentId::parse("+5"), None);
    assert_eq!(ContentId::parse("-5"), None);
    assert_eq!(ContentId::parse(" 5"), None);
    assert_eq!(ContentId::parse("5 "), None);
    assert_eq!(ContentId::parse("١٢"), None);
}

#[test]
fn parse_takes_the_largest_value_and_no_more() {
    assert_eq!(
        ContentId::parse("18446744073709551615"),
        Some(ContentId(u64::MAX))
    );
    assert_eq!(ContentId::parse("18446744073709551616"), None);
    assert_eq!(ContentId::parse("99999999999999999999"), None);
    assert_eq!(ContentId::parse("99999999999999999999x"), None);
}

#[test]
fn parse_reads_leading_zeros_as_the_same_value() {
    assert_eq!(ContentId::parse("007"), Some(ContentId(7)));
    assert_eq!(ContentId::parse("00"), Some(ContentId(0)));
}

#[test]
fn to_string_is_canonical_decimal() {
    assert_eq!(ContentId(0).to_string(), "0");
    assert_eq!(ContentId(7).to_string(), "7");
    assert_eq!(ContentId(100).to_string(), "100");
    assert_eq!(ContentId(u64::MAX).to_string(), "18446744073709551615");
}

#[test]
fn parse_then_format_round_trips() {
    for name in ["0", "7", "100", "007", "2834551234", "18446744073709551615"] {
        let id = ContentId::parse(name).unwrap();
        assert_eq!(ContentId::parse(&id.to_string()), Some(id));
    }
}

#[test]
fn parse_decimal_respects_its_bound() {
    assert_eq!(parse_decimal("255", 255), Some(255));
    assert_eq!(parse_decimal("256", 255), None);
    assert_eq!(parse_decimal("9", 5), None);
    assert_eq!(parse_decimal("5", 5), Some(5));
}

#[test]
fn parse_app_id_fits_in_32_bits() {
    assert_eq!(parse_app_id("4000"), Some(4000));
    assert_eq!(parse_app_id("4294967295"), Some(u32::MAX));
    assert_eq!(parse_app_id("4294967296"), None);
    assert_eq!(parse_app_id("workshop"), None);
}

#[test]
fn parse_app_id_takes_one_leading_plus() {
    assert_eq!(parse_app_id("+440"), Some(440));
    assert_eq!(parse_app_id("+"), None);
    assert_eq!(parse_app_id("++440"), None);
    assert_eq!(parse_app_id("-440"), None);
    assert_eq!(parse_app_id("44+0"), None);
    assert_eq!(parse_app_id(""), None);
}
