use seaplane::fixed::{abs_value, clamp_to, divide, multiply, tick_length, SCALE};

#[test]
fn multiply_rounds_toward_zero() {
    assert_eq!(multiply(1_500_000, 2_500_000), 3_750_000);
    assert_eq!(multiply(3, 500_000), 1);
    assert_eq!(multiply(-3, 500_000), -1);
    assert_eq!(multiply(1, 999_999), 0);
    assert_eq!(multiply(-1, 999_999), 0);
    assert_eq!(multiply(7 * SCALE, SCALE), 7 * SCALE);
}

#[test]
fn divide_rounds_toward_zero() {
    assert_eq!(divide(1_000_000, 3_000_000), 333_333);
    assert_eq!(divide(-1_000_000, 3_000_000), -333_333);
    assert_eq!(divide(80_000_000, 80_000_000), SCALE);
}

#[test]
fn clamp_and_magnitude() {
    assert_eq!(clamp_to(5, -3, 3), 3);
    assert_eq!(clamp_to(-5, -3, 3), -3);
    assert_eq!(clamp_to(2, -3, 3), 2);
    assert_eq!(abs_value(-9), 9);
    assert_eq!(abs_value(9), 9);
}

#[test]
fn tick_length_stops_at_the_largest_u32() {
    assert_eq!(tick_length(0), 0);
    assert_eq!(tick_length(16_667), 16_667);
    assert_eq!(tick_length(4_294_967_295), u32::MAX);
    assert_eq!(tick_length(4_294_967_296), u32::MAX);
    assert_eq!(tick_length(u128::MAX), u32::MAX);
}
