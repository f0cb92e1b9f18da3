use redis::text::parse_decimal;

#[test]
fn parse_decimal_reads_integers() {
    assert_eq!(parse_decimal("0"), Some(0));
    assert_eq!(parse_decimal("42"), Some(42));
    assert_eq!(parse_decimal("+42"), Some(42));
    assert_eq!(parse_decimal("-42"), Some(-42));
    assert_eq!(parse_decimal("-0"), Some(0));
    assert_eq!(parse_decimal("0042"), Some(42));
    assert_eq!(parse_decimal("9223372036854775807"), Some(i64::MAX));
    assert_eq!(parse_decimal("-9223372036854775808"), Some(i64::MIN));
}

#[test]
fn parse_decimal_refuses_everything_else() {
    assert_eq!(parse_decimal(""), None);
    assert_eq!(parse_decimal("+"), None);
    assert_eq!(parse_decimal("-"), None);
    assert_eq!(parse_decimal("+-1"), None);
    assert_eq!(parse_decimal("1+"), None);
    assert_eq!(parse_decimal(" 1"), None);
    assert_eq!(parse_decimal("1 "), None);
    assert_eq!(parse_decimal("1_000"), None);
    assert_eq!(parse_decimal("12a"), None);
    assert_eq!(parse_decimal("/3"), None);
    assert_eq!(parse_decimal("\u{661}"), None);
    assert_eq!(parse_decimal("1\u{e9}"), None);
    assert_eq!(parse_decimal("9223372036854775808"), None);
    assert_eq!(parse_decimal("-9223372036854775809"), None);
    assert_eq!(parse_decimal("18446744073709551616"), None);
    assert_eq!(parse_decimal("340282366920938463463374607431768211456"), None);
}

#[test]
fn parse_decimal_agrees_with_the_standard_library() {
    let texts = [
        "", "0", "-0", "+0", "7", "-7", "+7", "007", "-007", "1234567890", "9223372036854775806",
        "9223372036854775807", "9223372036854775808", "-9223372036854775807", "-9223372036854775808",
        "-9223372036854775809", "92233720368547758070", "--1", "++1", "1-", "0x1f", "1.0", "١", "a",
    ];
    for text in texts {
        assert_eq!(parse_decimal(text), text.parse::<i64>().ok(), "for the text {:?}", text);
    }
}
