use dyingstar_plugins::text::{append_decimal, append_signed_decimal, str_equals};

#[test]
fn decimal_rendering() {
    let mut s = String::from("n=");
    append_decimal(&mut s, 0);
    assert_eq!(s, "n=0");
    let mut s = String::new();
    append_decimal(&mut s, u64::MAX);
    assert_eq!(s, "18446744073709551615");
    let mut s = String::new();
    append_signed_decimal(&mut s, -10001);
    assert_eq!(s, "-10001");
    let mut s = String::new();
    append_signed_decimal(&mut s, i64::MIN);
    assert_eq!(s, "-9223372036854775808");
}

#[test]
fn string_equality() {
    assert!(str_equals("fleet", "fleet"));
    assert!(!str_equals("fleet", "Fleet"));
    assert!(!str_equals("", " "));
}
