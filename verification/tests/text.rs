use aviation_calc_util::text::{push_decimal, push_signed_decimal, push_zero_padded};
use aviation_calc_util::time::{utc_hour, Timestamp};

#[test]
fn decimal_digits_are_appended() {
    let mut out = String::from("n=");
    push_decimal(&mut out, 0);
    push_decimal(&mut out, 7);
    push_decimal(&mut out, 1204);
    push_decimal(&mut out, u32::MAX);
    assert_eq!(out, "n=0712044294967295");
}

#[test]
fn signed_decimal_digits_are_appended() {
    let mut out = String::new();
    push_signed_decimal(&mut out, -75);
    push_signed_decimal(&mut out, 0);
    push_signed_decimal(&mut out, 180);
    push_signed_decimal(&mut out, i32::MIN);
    assert_eq!(out, "-750180-2147483648");
}

#[test]
fn zero_padding_fills_up_to_the_width() {
    let mut out = String::new();
    push_zero_padded(&mut out, 6, 2);
    out.push('|');
    push_zero_padded(&mut out, 18, 2);
    out.push('|');
    push_zero_padded(&mut out, 8, 3);
    out.push('|');
    push_zero_padded(&mut out, 1234, 3);
    out.push('|');
    push_zero_padded(&mut out, 0, 0);
    assert_eq!(out, "06|18|008|1234|0");
}

#[test]
fn hour_of_the_day_in_universal_time() {
    assert_eq!(utc_hour(0), 0);
    assert_eq!(utc_hour(3_599), 0);
    assert_eq!(utc_hour(3_600), 1);
    assert_eq!(utc_hour(1_704_810_600), 14);
    assert_eq!(utc_hour(-1), 23);
    assert_eq!(utc_hour(-3_600), 23);
    assert_eq!(utc_hour(-3_601), 22);
    assert_eq!(utc_hour(i64::MAX), 15);
    assert_eq!(utc_hour(i64::MIN), 8);
}

#[test]
fn nanoseconds_between_two_instants() {
    let a = Timestamp::new(10, 500_000_000);
    let b = Timestamp::new(12, 250_000_000);
    assert_eq!(a.nanos_between(&b), 1_750_000_000);
    assert_eq!(b.nanos_between(&a), 1_750_000_000);
    assert_eq!(a.nanos_between(&a), 0);
    let far = Timestamp::new(i64::MIN, 0).nanos_between(&Timestamp::new(i64::MAX, 999_999_999));
    assert_eq!(far, 18_446_744_073_709_551_615_999_999_999);
}
