use cp_amm::constants::{MAX_SQRT_PRICE, MIN_SQRT_PRICE};
use cp_amm::errors::PoolError;
use cp_amm::curve::{
    get_amount_a_from_liquidity_delta, get_amount_b_from_liquidity_delta, get_initialize_amounts,
};
use cp_amm::math::Rounding;

#[test]
fn amount_a_exact_value() {
    // L * (u - l) / (l * u) with L = 2^70, l = 2^64, u = 2^65 is exactly 32
    let l: u128 = 1 << 64;
    let u: u128 = 1 << 65;
    let liq: u128 = 1 << 70;
    assert_eq!(get_amount_a_from_liquidity_delta(liq, l, u, Rounding::Down), Ok(32));
    assert_eq!(get_amount_a_from_liquidity_delta(liq, l, u, Rounding::Up), Ok(32));
}

#[test]
fn amount_a_rounding_direction() {
    // 100 * (5 - 3) / (3 * 5) = 200 / 15 = 13.33..
    assert_eq!(get_amount_a_from_liquidity_delta(100, 3, 5, Rounding::Down), Ok(13));
    assert_eq!(get_amount_a_from_liquidity_delta(100, 3, 5, Rounding::Up), Ok(14));
}

#[test]
fn amount_a_zero_width_range() {
    assert_eq!(get_amount_a_from_liquidity_delta(1 << 100, 7, 7, Rounding::Up), Ok(0));
}

#[test]
fn amount_a_overflowing_u64() {
    // L / l alone already exceeds u64::MAX
    assert_eq!(
        get_amount_a_from_liquidity_delta(u128::MAX, 1, 2, Rounding::Down),
        Err(PoolError::MathOverflow)
    );
}

#[test]
fn amount_b_exact_value() {
    // L * (u - l) / 2^128 with L = 2^70, l = 2^64, u = 2^65 is exactly 64
    let l: u128 = 1 << 64;
    let u: u128 = 1 << 65;
    let liq: u128 = 1 << 70;
    assert_eq!(get_amount_b_from_liquidity_delta(liq, l, u, Rounding::Down), Ok(64));
    assert_eq!(get_amount_b_from_liquidity_delta(liq, l, u, Rounding::Up), Ok(64));
}

#[test]
fn amount_b_rounding_direction() {
    // 1 * (1 - 0) / 2^128 rounds to 0 downward and 1 upward
    assert_eq!(get_amount_b_from_liquidity_delta(1, 0, 1, Rounding::Down), Ok(0));
    assert_eq!(get_amount_b_from_liquidity_delta(1, 0, 1, Rounding::Up), Ok(1));
}

#[test]
fn initialize_amounts_happy_path() {
    // price at the lower bound: everything is backed by asset A
    let min: u128 = 1 << 64;
    let max: u128 = 1 << 65;
    assert_eq!(get_initialize_amounts(min, max, min, 1 << 70), Ok((32, 0)));
}

#[test]
fn initialize_amounts_equal_bounds_rejected() {
    let p: u128 = 1 << 64;
    assert_eq!(get_initialize_amounts(p, p, p, 1 << 70), Err(PoolError::InvalidPriceRange));
}

#[test]
fn initialize_amounts_min_above_global_max_rejected() {
    assert_eq!(
        get_initialize_amounts(MAX_SQRT_PRICE + 1, MAX_SQRT_PRICE + 2, MAX_SQRT_PRICE + 1, 1),
        Err(PoolError::InvalidPriceRange)
    );
}

#[test]
fn initialize_amounts_min_below_global_min_rejected() {
    assert_eq!(
        get_initialize_amounts(MIN_SQRT_PRICE - 1, 1 << 64, 1 << 63, 1),
        Err(PoolError::InvalidPriceRange)
    );
}

#[test]
fn initialize_amounts_price_outside_bounds_rejected() {
    let min: u128 = 1 << 64;
    let max: u128 = 1 << 65;
    assert_eq!(get_initialize_amounts(min, max, max + 1, 1), Err(PoolError::InvalidPriceRange));
}
