use steering_wheel::text::{format_fixed, format_signed};

fn s(v: Vec<u8>) -> String {
    String::from_utf8(v).unwrap()
}

#[test]
fn one_decimal_right_aligned() {
    assert_eq!(s(format_signed(1234, 1, 5)), "123.4");
    assert_eq!(s(format_signed(5, 1, 5)), "  0.5");
    assert_eq!(s(format_signed(1200, 1, 5)), "120.0");
    assert_eq!(s(format_signed(-125, 1, 5)), "-12.5");
    assert_eq!(s(format_signed(0, 1, 5)), "  0.0");
}

#[test]
fn three_decimals_unpadded() {
    assert_eq!(s(format_signed(7, 3, 0)), "0.007");
    assert_eq!(s(format_signed(1250, 3, 0)), "1.250");
    assert_eq!(s(format_signed(-42, 3, 0)), "-0.042");
}

#[test]
fn whole_numbers() {
    assert_eq!(s(format_fixed(false, 42, 0, 2)), "42");
    assert_eq!(s(format_fixed(false, 5, 0, 2)), " 5");
    assert_eq!(s(format_fixed(false, 123, 0, 2)), "123");
    assert_eq!(s(format_fixed(false, 0, 0, 0)), "0");
    assert_eq!(s(format_fixed(false, 4095, 0, 5)), " 4095");
}

#[test]
fn widest_values() {
    assert_eq!(s(format_fixed(false, u64::MAX, 0, 0)), "18446744073709551615");
    assert_eq!(s(format_signed(i32::MIN, 1, 5)), "-214748364.8");
    assert_eq!(s(format_signed(i32::MAX, 0, 0)), "2147483647");
}
