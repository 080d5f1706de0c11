use slack_unfurl::decimal::{parse_i64, parse_u64, u64_to_decimal};
use slack_unfurl::text::chars_of;

#[test]
fn parses_plain_digits() {
    assert_eq!(parse_u64(&chars_of("6666")), Some(6666));
    assert_eq!(parse_u64(&chars_of("0")), Some(0));
    assert_eq!(parse_u64(&chars_of("007")), Some(7));
}

#[test]
fn parses_a_leading_plus() {
    assert_eq!(parse_u64(&chars_of("+12")), Some(12));
    assert_eq!(parse_u64(&chars_of("+")), None);
    assert_eq!(parse_u64(&chars_of("++1")), None);
}

#[test]
fn rejects_what_is_no_number() {
    assert_eq!(parse_u64(&chars_of("")), None);
    assert_eq!(parse_u64(&chars_of("-1")), None);
    assert_eq!(parse_u64(&chars_of("12a")), None);
    assert_eq!(parse_u64(&chars_of(" 12")), None);
    assert_eq!(parse_u64(&chars_of("1.5")), None);
}

#[test]
fn parses_up_to_the_largest_u64() {
    assert_eq!(parse_u64(&chars_of("18446744073709551615")), Some(u64::MAX));
    assert_eq!(parse_u64(&chars_of("18446744073709551616")), None);
    assert_eq!(parse_u64(&chars_of("99999999999999999999999")), None);
}

#[test]
fn parses_signed_numbers_in_range() {
    assert_eq!(parse_i64(&chars_of("1700000000")), Some(1700000000));
    assert_eq!(parse_i64(&chars_of("-5")), Some(-5));
    assert_eq!(parse_i64(&chars_of("9223372036854775807")), Some(i64::MAX));
    assert_eq!(parse_i64(&chars_of("9223372036854775808")), None);
    assert_eq!(parse_i64(&chars_of("-9223372036854775808")), Some(i64::MIN));
    assert_eq!(parse_i64(&chars_of("-9223372036854775809")), None);
    assert_eq!(parse_i64(&chars_of("1.0")), None);
    assert_eq!(parse_i64(&chars_of("+1")), None);
    assert_eq!(parse_i64(&chars_of("-")), None);
}

#[test]
fn writes_shortest_decimal_text() {
    assert_eq!(u64_to_decimal(0), "0");
    assert_eq!(u64_to_decimal(9), "9");
    assert_eq!(u64_to_decimal(10), "10");
    assert_eq!(u64_to_decimal(6666), "6666");
    assert_eq!(u64_to_decimal(18446744073709551615), "18446744073709551615");
}

#[test]
fn reading_back_what_was_written_gives_the_number() {
    for n in [0u64, 1, 9, 10, 99, 100, 12345, u64::MAX] {
        assert_eq!(parse_u64(&chars_of(&u64_to_decimal(n))), Some(n));
    }
}
