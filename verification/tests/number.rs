use init_tools::number::decimal_text;
use init_tools::number::parse_unsigned;

#[test]
fn parse_unsigned_reads_plain_digits() {
    assert_eq!(parse_unsigned("0", u64::MAX), Some(0));
    assert_eq!(parse_unsigned("7", u64::MAX), Some(7));
    assert_eq!(parse_unsigned("42", u64::MAX), Some(42));
    assert_eq!(parse_unsigned("00012", u64::MAX), Some(12));
}

#[test]
fn parse_unsigned_takes_a_leading_plus() {
    assert_eq!(parse_unsigned("+5", u64::MAX), Some(5));
    assert_eq!(parse_unsigned("+", u64::MAX), None);
    assert_eq!(parse_unsigned("++5", u64::MAX), None);
    assert_eq!(parse_unsigned("5+", u64::MAX), None);
}

#[test]
fn parse_unsigned_refuses_what_is_no_number() {
    assert_eq!(parse_unsigned("", u64::MAX), None);
    assert_eq!(parse_unsigned("-1", u64::MAX), None);
    assert_eq!(parse_unsigned("-0", u64::MAX), None);
    assert_eq!(parse_unsigned(" 1", u64::MAX), None);
    assert_eq!(parse_unsigned("1 ", u64::MAX), None);
    assert_eq!(parse_unsigned("1.5", u64::MAX), None);
    assert_eq!(parse_unsigned("0x10", u64::MAX), None);
    assert_eq!(parse_unsigned("ten", u64::MAX), None);
    assert_eq!(parse_unsigned("\u{661}\u{662}", u64::MAX), None);
}

#[test]
fn parse_unsigned_stops_at_the_limit() {
    assert_eq!(parse_unsigned("18446744073709551615", u64::MAX), Some(u64::MAX));
    assert_eq!(parse_unsigned("18446744073709551616", u64::MAX), None);
    assert_eq!(parse_unsigned("99999999999999999999999999", u64::MAX), None);
    assert_eq!(parse_unsigned("65535", 65535), Some(65535));
    assert_eq!(parse_unsigned("65536", 65535), None);
    assert_eq!(parse_unsigned("0", 0), Some(0));
    assert_eq!(parse_unsigned("1", 0), None);
    assert_eq!(parse_unsigned("9", 5), None);
    assert_eq!(parse_unsigned("5", 5), Some(5));
}

#[test]
fn parse_unsigned_agrees_with_the_standard_library() {
    let samples = [
        "", "+", "-", "0", "+0", "-0", "1", "01", "+01", "12a", "a12", "1_000", "4294967296",
        "18446744073709551615", "18446744073709551616", "+18446744073709551615", "  3", "3\n",
    ];
    for sample in samples {
        assert_eq!(parse_unsigned(sample, u64::MAX), sample.parse::<u64>().ok(), "{:?}", sample);
        assert_eq!(
            parse_unsigned(sample, 65535),
            sample.parse::<u16>().ok().map(u64::from),
            "{:?}",
            sample
        );
    }
}

#[test]
fn decimal_text_writes_digits_without_leading_zeros() {
    assert_eq!(decimal_text(0), "0");
    assert_eq!(decimal_text(9), "9");
    assert_eq!(decimal_text(10), "10");
    assert_eq!(decimal_text(8080), "8080");
    assert_eq!(decimal_text(65535), "65535");
    assert_eq!(decimal_text(u64::MAX), "18446744073709551615");
}

#[test]
fn what_was_written_is_read_back() {
    for number in [0u64, 1, 9, 10, 99, 100, 1234567890, 65535, u64::MAX - 1, u64::MAX] {
        assert_eq!(parse_unsigned(&decimal_text(number), u64::MAX), Some(number));
    }
}
