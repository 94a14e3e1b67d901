use browser_cli::numbers::i64_to_dec;
use browser_cli::numbers::parse_i32;
use browser_cli::numbers::parse_u64;
use browser_cli::numbers::u64_to_dec;

fn chars(s: &str) -> Vec<char> {
    s.chars().collect()
}

#[test]
fn renders_zero() {
    assert_eq!(u64_to_dec(0), "0");
}

#[test]
fn renders_digits() {
    assert_eq!(u64_to_dec(12345), "12345");
    assert_eq!(u64_to_dec(u64::MAX), "18446744073709551615");
}

#[test]
fn renders_signed() {
    assert_eq!(i64_to_dec(-300), "-300");
    assert_eq!(i64_to_dec(300), "300");
    assert_eq!(i64_to_dec(i64::MIN), "-9223372036854775808");
}

#[test]
fn parses_plain_u64() {
    assert_eq!(parse_u64(&chars("42")), Some(42));
    assert_eq!(parse_u64(&chars("+42")), Some(42));
    assert_eq!(parse_u64(&chars("0")), Some(0));
    assert_eq!(parse_u64(&chars("18446744073709551615")), Some(u64::MAX));
}

#[test]
fn rejects_bad_u64() {
    assert_eq!(parse_u64(&chars("")), None);
    assert_eq!(parse_u64(&chars("+")), None);
    assert_eq!(parse_u64(&chars("4x")), None);
    assert_eq!(parse_u64(&chars("-1")), None);
    assert_eq!(parse_u64(&chars("18446744073709551616")), None);
}

#[test]
fn parse_u64_matches_std() {
    for s in ["7", "+7", "007", "99999999999999999999", "a", "", "1 2"] {
        assert_eq!(parse_u64(&chars(s)), s.parse::<u64>().ok());
    }
}

#[test]
fn parses_i32_range() {
    assert_eq!(parse_i32(&chars("100")), Some(100));
    assert_eq!(parse_i32(&chars("-300")), Some(-300));
    assert_eq!(parse_i32(&chars("+5")), Some(5));
    assert_eq!(parse_i32(&chars("-2147483648")), Some(i32::MIN));
    assert_eq!(parse_i32(&chars("2147483647")), Some(i32::MAX));
}

#[test]
fn rejects_out_of_range_i32() {
    assert_eq!(parse_i32(&chars("2147483648")), None);
    assert_eq!(parse_i32(&chars("-2147483649")), None);
    assert_eq!(parse_i32(&chars("-")), None);
    assert_eq!(parse_i32(&chars("12a")), None);
}

#[test]
fn parse_i32_matches_std() {
    for s in ["-0", "+0", "-2147483648", "2147483648", "x", ""] {
        assert_eq!(parse_i32(&chars(s)), s.parse::<i32>().ok());
    }
}
