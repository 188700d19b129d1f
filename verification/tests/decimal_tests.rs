use auth_service::decimal::{i32_to_string, i64_to_string, parse_digit_run, parse_i32, parse_i64, parse_i64_lenient, parse_u16_lenient, parse_u64, u64_to_string};

#[test]
fn formatting_is_canonical() {
    assert_eq!(u64_to_string(0), "0");
    assert_eq!(u64_to_string(7), "7");
    assert_eq!(u64_to_string(12345), "12345");
    assert_eq!(u64_to_string(u64::MAX), "18446744073709551615");
    assert_eq!(i64_to_string(-42), "-42");
    assert_eq!(i64_to_string(i64::MIN), "-9223372036854775808");
    assert_eq!(i32_to_string(i32::MIN), "-2147483648");
    assert_eq!(i32_to_string(0), "0");
}

#[test]
fn parsing_accepts_canonical_numerals() {
    assert_eq!(parse_u64("0"), Some(0));
    assert_eq!(parse_u64("18446744073709551615"), Some(u64::MAX));
    assert_eq!(parse_i64("-9223372036854775808"), Some(i64::MIN));
    assert_eq!(parse_i32("123"), Some(123));
    assert_eq!(parse_i32("-2147483648"), Some(i32::MIN));
    assert_eq!(parse_u16_lenient("65535"), Some(65535));
}

#[test]
fn parsing_rejects_junk_and_overflow() {
    assert_eq!(parse_u64(""), None);
    assert_eq!(parse_u64("007"), None);
    assert_eq!(parse_u64("1 2"), None);
    assert_eq!(parse_u64("18446744073709551616"), None);
    assert_eq!(parse_i64("-0"), None);
    assert_eq!(parse_i64("+5"), None);
    assert_eq!(parse_i32("2147483648"), None);
    assert_eq!(parse_i32("12a"), None);
    assert_eq!(parse_u16_lenient("65536"), None);
    assert_eq!(parse_u16_lenient("-0"), None);
}

#[test]
fn lenient_parsing_matches_std_grammar() {
    assert_eq!(parse_digit_run("007"), Some(7));
    assert_eq!(parse_digit_run(""), None);
    assert_eq!(parse_digit_run("+7"), None);
    assert_eq!(parse_i64_lenient("+5"), Some(5));
    assert_eq!(parse_i64_lenient("-0"), Some(0));
    assert_eq!(parse_i64_lenient("0060"), Some(60));
    assert_eq!(parse_i64_lenient("-9223372036854775808"), Some(i64::MIN));
    assert_eq!(parse_i64_lenient("9223372036854775808"), None);
    assert_eq!(parse_i64_lenient("6 0"), None);
    assert_eq!(parse_u16_lenient("+8081"), Some(8081));
    assert_eq!(parse_u16_lenient("0080"), Some(80));
}

#[test]
fn format_parse_roundtrip_samples() {
    for v in [0i64, 1, -1, 60, -60, 8080, i64::MAX, i64::MIN] {
        assert_eq!(parse_i64(&i64_to_string(v)), Some(v));
    }
}
