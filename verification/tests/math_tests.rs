use cp_amm::errors::ArithmeticError;
use cp_amm::math::{div_round, mul_div, mul_shr_128, Rounding};

#[test]
fn mul_div_rounds_down_and_up() {
    assert_eq!(mul_div(6, 7, 4, Rounding::Down), Ok(10));
    assert_eq!(mul_div(6, 7, 4, Rounding::Up), Ok(11));
    assert_eq!(mul_div(1, 1, 2, Rounding::Down), Ok(0));
    assert_eq!(mul_div(1, 1, 2, Rounding::Up), Ok(1));
}

#[test]
fn mul_div_exact_quotient_agrees_in_both_directions() {
    assert_eq!(mul_div(100, 30, 6, Rounding::Down), Ok(500));
    assert_eq!(mul_div(100, 30, 6, Rounding::Up), Ok(500));
}

#[test]
fn mul_div_wide_operands() {
    // (2^100 * 2^100) / 2^100 stays exactly representable
    let p100: u128 = 1 << 100;
    assert_eq!(mul_div(p100, p100, p100, Rounding::Down), Ok(p100));
    // the largest exactly representable case
    assert_eq!(mul_div(u128::MAX, u128::MAX, u128::MAX, Rounding::Down), Ok(u128::MAX));
    assert_eq!(mul_div(u128::MAX, u128::MAX, u128::MAX, Rounding::Up), Ok(u128::MAX));
}

#[test]
fn mul_div_division_by_zero() {
    assert_eq!(mul_div(1, 1, 0, Rounding::Down), Err(ArithmeticError::DivisionByZero));
    assert_eq!(mul_div(0, 0, 0, Rounding::Up), Err(ArithmeticError::DivisionByZero));
}

#[test]
fn mul_div_overflow() {
    assert_eq!(mul_div(u128::MAX, u128::MAX, 1, Rounding::Down), Err(ArithmeticError::Overflow));
    assert_eq!(mul_div(u128::MAX, 2, 1, Rounding::Down), Err(ArithmeticError::Overflow));
    // u128::MAX * 2 / 2 fits again
    assert_eq!(mul_div(u128::MAX, 2, 2, Rounding::Down), Ok(u128::MAX));
}

#[test]
fn mul_div_zero_numerator() {
    assert_eq!(mul_div(0, u128::MAX, 7, Rounding::Up), Ok(0));
    assert_eq!(mul_div(u128::MAX, 0, 7, Rounding::Down), Ok(0));
}

#[test]
fn mul_shr_128_takes_the_high_limb() {
    let p64: u128 = 1 << 64;
    assert_eq!(mul_shr_128(p64, p64, Rounding::Down), 1);
    assert_eq!(mul_shr_128(p64, p64, Rounding::Up), 1);
    assert_eq!(mul_shr_128(p64, p64 - 1, Rounding::Down), 0);
    assert_eq!(mul_shr_128(p64, p64 - 1, Rounding::Up), 1);
    assert_eq!(mul_shr_128(0, u128::MAX, Rounding::Up), 0);
}

#[test]
fn div_round_directions() {
    assert_eq!(div_round(7, 2, Rounding::Down), 3);
    assert_eq!(div_round(7, 2, Rounding::Up), 4);
    assert_eq!(div_round(8, 2, Rounding::Down), 4);
    assert_eq!(div_round(8, 2, Rounding::Up), 4);
    assert_eq!(div_round(0, 5, Rounding::Up), 0);
}
