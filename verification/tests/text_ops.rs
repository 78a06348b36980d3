use score_relay::text::{format_centi, format_tenths, i64_to_string, parse_u64, u128_to_string, u64_to_string};

#[test]
fn renders_small_numbers() {
    assert_eq!(u64_to_string(0), "0");
    assert_eq!(u64_to_string(7), "7");
    assert_eq!(u64_to_string(10), "10");
    assert_eq!(u64_to_string(180), "180");
    assert_eq!(u64_to_string(u64::MAX), "18446744073709551615");
}

#[test]
fn renders_u128_numbers() {
    assert_eq!(u128_to_string(0), "0");
    assert_eq!(u128_to_string(270), "270");
    assert_eq!(u128_to_string(340282366920938463463374607431768211455), "340282366920938463463374607431768211455");
}

#[test]
fn renders_signed_numbers() {
    assert_eq!(i64_to_string(0), "0");
    assert_eq!(i64_to_string(42), "42");
    assert_eq!(i64_to_string(-42), "-42");
    assert_eq!(i64_to_string(i64::MIN), "-9223372036854775808");
}

#[test]
fn renders_tenths() {
    assert_eq!(format_tenths(15), "1.5");
    assert_eq!(format_tenths(10), "1.0");
    assert_eq!(format_tenths(0), "0.0");
    assert_eq!(format_tenths(1234), "123.4");
}

#[test]
fn renders_centi() {
    assert_eq!(format_centi(9876), "98.76");
    assert_eq!(format_centi(10000), "100.00");
    assert_eq!(format_centi(5), "0.05");
    assert_eq!(format_centi(250), "2.50");
}

#[test]
fn parses_decimal_strings() {
    assert_eq!(parse_u64("0"), Some(0));
    assert_eq!(parse_u64("1234567890"), Some(1234567890));
    assert_eq!(parse_u64("18446744073709551615"), Some(u64::MAX));
}

#[test]
fn rejects_bad_decimal_strings() {
    assert_eq!(parse_u64(""), None);
    assert_eq!(parse_u64("12a3"), None);
    assert_eq!(parse_u64("-5"), None);
    assert_eq!(parse_u64(" 5"), None);
    // one past u64::MAX
    assert_eq!(parse_u64("18446744073709551616"), None);
}
