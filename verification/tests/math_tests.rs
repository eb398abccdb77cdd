use amm::errors::AmmError;
use amm::math::{mul_div_u64, sqrt_u128};

#[test]
fn mul_div_crafted_values() {
    assert_eq!(mul_div_u64(6, 7, 3), Ok(14));
}

#[test]
fn mul_div_zero_divisor_fails() {
    assert_eq!(mul_div_u64(1, 1, 0), Err(AmmError::CalculationError));
}

#[test]
fn mul_div_overflowing_result_fails() {
    assert_eq!(
        mul_div_u64(u64::MAX, u64::MAX, 1),
        Err(AmmError::CalculationError)
    );
}

#[test]
fn mul_div_widened_intermediate_survives() {
    // The product overflows 64 bits; the quotient fits exactly.
    assert_eq!(mul_div_u64(u64::MAX, 2, 2), Ok(u64::MAX));
    assert_eq!(mul_div_u64(u64::MAX, u64::MAX, u64::MAX), Ok(u64::MAX));
}

#[test]
fn mul_div_zero_numerator() {
    assert_eq!(mul_div_u64(0, 5, 7), Ok(0));
}

#[test]
fn mul_div_rounds_down() {
    assert_eq!(mul_div_u64(7, 3, 4), Ok(5));
}

#[test]
fn sqrt_small_values() {
    assert_eq!(sqrt_u128(0), 0);
    assert_eq!(sqrt_u128(1), 1);
    assert_eq!(sqrt_u128(2), 1);
    assert_eq!(sqrt_u128(3), 1);
    assert_eq!(sqrt_u128(4), 2);
    assert_eq!(sqrt_u128(35), 5);
    assert_eq!(sqrt_u128(36), 6);
}

#[test]
fn sqrt_perfect_square() {
    assert_eq!(sqrt_u128(1_000_000_000_000), 1_000_000);
}

#[test]
fn sqrt_largest_input() {
    assert_eq!(sqrt_u128(u128::MAX), u64::MAX);
}
