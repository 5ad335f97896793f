use code_engine::text::{i32_dec, u64_dec};

#[test]
fn zero_renders_as_one_digit() {
    assert_eq!(u64_dec(0), "0");
    assert_eq!(i32_dec(0), "0");
}

#[test]
fn digits_render_most_significant_first() {
    assert_eq!(u64_dec(42), "42");
    assert_eq!(u64_dec(1234567890), "1234567890");
}

#[test]
fn negative_values_carry_a_minus_sign() {
    assert_eq!(i32_dec(-1), "-1");
    assert_eq!(i32_dec(-7), "-7");
}

#[test]
fn extreme_values_render_exactly() {
    assert_eq!(i32_dec(i32::MAX), "2147483647");
    assert_eq!(i32_dec(i32::MIN), "-2147483648");
    assert_eq!(u64_dec(u64::MAX), "18446744073709551615");
}
