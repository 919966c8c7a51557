use kongregator::threshold::parse_threshold;

#[test]
fn parses_plain_decimal_numbers() {
    assert_eq!(parse_threshold("0"), Some(0));
    assert_eq!(parse_threshold("7"), Some(7));
    assert_eq!(parse_threshold("1000"), Some(1000));
    assert_eq!(parse_threshold("1500"), Some(1500));
    assert_eq!(parse_threshold("1234567890"), Some(1_234_567_890));
}

#[test]
fn accepts_one_leading_plus_and_leading_zeros() {
    assert_eq!(parse_threshold("+42"), Some(42));
    assert_eq!(parse_threshold("+0"), Some(0));
    assert_eq!(parse_threshold("007"), Some(7));
    assert_eq!(parse_threshold("+000"), Some(0));
    assert_eq!(parse_threshold("0000000000000000000000000000001"), Some(1));
}

#[test]
fn accepts_the_largest_value_and_refuses_the_next() {
    assert_eq!(parse_threshold("18446744073709551615"), Some(u64::MAX));
    assert_eq!(parse_threshold("+18446744073709551615"), Some(u64::MAX));
    assert_eq!(parse_threshold("18446744073709551616"), None);
    assert_eq!(parse_threshold("18446744073709551620"), None);
    assert_eq!(parse_threshold("99999999999999999999"), None);
    assert_eq!(parse_threshold("184467440737095516150"), None);
}

#[test]
fn refuses_what_is_not_an_unsigned_decimal_number() {
    assert_eq!(parse_threshold(""), None);
    assert_eq!(parse_threshold("+"), None);
    assert_eq!(parse_threshold("-"), None);
    assert_eq!(parse_threshold("-1"), None);
    assert_eq!(parse_threshold("-0"), None);
    assert_eq!(parse_threshold("++1"), None);
    assert_eq!(parse_threshold("1+"), None);
    assert_eq!(parse_threshold(" 5"), None);
    assert_eq!(parse_threshold("5 "), None);
    assert_eq!(parse_threshold("1_000"), None);
    assert_eq!(parse_threshold("1,000"), None);
    assert_eq!(parse_threshold("12a"), None);
    assert_eq!(parse_threshold("0x10"), None);
    assert_eq!(parse_threshold("1e3"), None);
    assert_eq!(parse_threshold("10.0"), None);
    assert_eq!(parse_threshold("/"), None);
    assert_eq!(parse_threshold(":"), None);
}

#[test]
fn refuses_digits_outside_ascii() {
    assert_eq!(parse_threshold("\u{0661}\u{0662}"), None);
    assert_eq!(parse_threshold("\u{ff11}"), None);
    assert_eq!(parse_threshold("1\u{00e9}"), None);
    assert_eq!(parse_threshold("+\u{00e9}1"), None);
    assert_eq!(parse_threshold("\u{00e9}"), None);
}

#[test]
fn agrees_with_the_standard_parser() {
    let samples = vec![
        "", "0", "1", "9", "10", "+", "-", "+1", "-1", "+-1", "++", "00", "0123", "1000", "1500",
        "4294967295", "4294967296", "18446744073709551614", "18446744073709551615",
        "18446744073709551616", "28446744073709551615", "100000000000000000000", " 1", "1 ",
        "1\n", "\t1", "1.5", "one", "0b1", "1u64", "\u{0663}", "12\u{00a0}", "+007", "٣",
    ];
    for text in samples {
        assert_eq!(parse_threshold(text), text.parse::<u64>().ok(), "text {:?}", text);
    }
}
