use rose_offline_client::text::{decimal_string, push_decimal, push_signed_decimal, signed_decimal_string};

fn decimal_value(s: &str) -> u128 {
    s.chars().fold(0u128, |acc, c| acc * 10 + (c as u128 - '0' as u128))
}

#[test]
fn decimal_of_zero_is_one_digit() {
    assert_eq!(decimal_string(0), "0");
}

#[test]
fn decimal_of_numbers() {
    assert_eq!(decimal_string(7), "7");
    assert_eq!(decimal_string(10), "10");
    assert_eq!(decimal_string(1234), "1234");
    assert_eq!(decimal_string(u64::MAX), "18446744073709551615");
}

#[test]
fn signed_decimal_of_numbers() {
    assert_eq!(signed_decimal_string(-5), "-5");
    assert_eq!(signed_decimal_string(0), "0");
    assert_eq!(signed_decimal_string(42), "42");
    assert_eq!(signed_decimal_string(i64::MIN), "-9223372036854775808");
    assert_eq!(signed_decimal_string(i64::MAX), "9223372036854775807");
}

#[test]
fn decimal_reads_back_as_the_number() {
    for n in [0u64, 1, 9, 10, 99, 100, 65535, 4_000_000_000, u64::MAX] {
        let text = decimal_string(n);
        assert_eq!(decimal_value(&text), n as u128);
        assert!(text == "0" || !text.starts_with('0'));
        assert!(text.chars().all(|c| c.is_ascii_digit()));
    }
}

#[test]
fn push_decimal_appends() {
    let mut s = String::from("level ");
    push_decimal(&mut s, 35);
    assert_eq!(s, "level 35");
    let mut t = String::from("x=");
    push_signed_decimal(&mut t, -120);
    assert_eq!(t, "x=-120");
}
