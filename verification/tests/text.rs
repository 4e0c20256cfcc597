use mini_current_meter::text::{power_of_ten, push_decimal, push_fixed, push_padded};

fn fixed(value: i64, drop: u8, decimals: u8) -> String {
    let mut out = String::new();
    push_fixed(&mut out, value, drop, decimals);
    out
}

#[test]
fn powers_of_ten() {
    assert_eq!(power_of_ten(0), 1);
    assert_eq!(power_of_ten(1), 10);
    assert_eq!(power_of_ten(9), 1_000_000_000);
    assert_eq!(power_of_ten(18), 1_000_000_000_000_000_000);
}

#[test]
fn decimal_digits_of_small_and_large_numbers() {
    let mut out = String::new();
    push_decimal(&mut out, 0);
    assert_eq!(out, "0");
    let mut out = String::from("x");
    push_decimal(&mut out, 1_700_000_000_123_456_789);
    assert_eq!(out, "x1700000000123456789");
    let mut out = String::new();
    push_decimal(&mut out, u128::MAX);
    assert_eq!(out, "340282366920938463463374607431768211455");
}

#[test]
fn padded_digits_keep_leading_zeros() {
    let mut out = String::new();
    push_padded(&mut out, 42, 5);
    assert_eq!(out, "00042");
    let mut out = String::new();
    push_padded(&mut out, 123_456, 3);
    assert_eq!(out, "456");
    let mut out = String::from("a");
    push_padded(&mut out, 7, 0);
    assert_eq!(out, "a");
}

#[test]
fn fixed_text_with_five_decimals() {
    assert_eq!(fixed(1_234_560_000, 4, 5), "1.23456");
    assert_eq!(fixed(12_000_000_000, 4, 5), "12.00000");
    assert_eq!(fixed(0, 4, 5), "0.00000");
    assert_eq!(fixed(-500_000_000, 4, 5), "-0.50000");
}

#[test]
fn fixed_text_rounds_half_away_from_zero() {
    assert_eq!(fixed(4_999, 4, 5), "0.00000");
    assert_eq!(fixed(5_000, 4, 5), "0.00001");
    assert_eq!(fixed(14_999, 4, 5), "0.00001");
    assert_eq!(fixed(15_000, 4, 5), "0.00002");
    assert_eq!(fixed(-5_000, 4, 5), "-0.00001");
    assert_eq!(fixed(999_995_000, 4, 5), "1.00000");
}

#[test]
fn fixed_text_keeps_the_sign_of_what_rounds_to_zero() {
    assert_eq!(fixed(-4_999, 4, 5), "-0.00000");
    assert_eq!(fixed(-1, 8, 1), "-0.0");
}

#[test]
fn fixed_text_in_other_shapes() {
    assert_eq!(fixed(3_700_000_000, 7, 2), "3.70");
    assert_eq!(fixed(3_705_000_000, 7, 2), "3.71");
    assert_eq!(fixed(4_149_999_999, 8, 1), "4.1");
    assert_eq!(fixed(4_150_000_000, 8, 1), "4.2");
    assert_eq!(fixed(123_456_789, 4, 2), "123.46");
    assert_eq!(fixed(1_999_949_999, 5, 4), "1.9999");
    assert_eq!(fixed(1_234, 0, 3), "1.234");
    assert_eq!(fixed(1_234, 0, 0), "1234");
    assert_eq!(fixed(1_500, 3, 0), "2");
}

#[test]
fn fixed_text_at_the_ends_of_the_range() {
    assert_eq!(fixed(i64::MAX, 0, 9), "9223372036.854775807");
    assert_eq!(fixed(i64::MIN, 0, 9), "-9223372036.854775808");
    assert_eq!(fixed(i64::MAX, 18, 0), "9");
    assert_eq!(fixed(i64::MIN, 18, 18), "-0.000000000000000009");
}
