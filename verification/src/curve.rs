//! The liquidity curve: pure functions mapping a liquidity amount and a
//! square-root price range to the two asset amounts that back it.
//!
//! With prices in Q64.64 fixed point, the amount of asset A owed between a
//! lower and an upper square-root price is `L * (upper - lower) / (lower *
//! upper)`, and the amount of asset B is `L * (upper - lower) / 2^128`; the
//! caller chooses the rounding direction.

use crate::constants::{LIQUIDITY_MAX, MAX_SQRT_PRICE, MIN_SQRT_PRICE};
use crate::errors::PoolError;
use crate::math::{
    div_round, lemma_ceil_div_bounds, lemma_ceil_div_compose, lemma_ceil_div_least,
    lemma_ceil_div_monotone, lemma_ceil_div_scale, mul_div, mul_shr_128, pow2_128, rounded_div,
    Rounding,
};
use vstd::arithmetic::div_mod::*;
use vstd::arithmetic::mul::*;
use vstd::prelude::*;

verus! {

/// Exact amount of asset A backing `liquidity` between the two square-root
/// prices, in the given rounding direction.
pub open spec fn amount_a_spec(liquidity: int, lower: int, upper: int, rounding: Rounding) -> int {
    rounded_div(liquidity * (upper - lower), lower * upper, rounding)
}

/// Exact amount of asset B backing `liquidity` between the two square-root
/// prices, in the given rounding direction.
pub open spec fn amount_b_spec(liquidity: int, lower: int, upper: int, rounding: Rounding) -> int {
    rounded_div(liquidity * (upper - lower), pow2_128(), rounding)
}

/// Amount of asset A for a liquidity delta between `lower_sqrt_price` and
/// `upper_sqrt_price`; fails exactly when the rounded amount does not fit in
/// a `u64`.
pub fn get_amount_a_from_liquidity_delta(
    liquidity: u128,
    lower_sqrt_price: u128,
    upper_sqrt_price: u128,
    rounding: Rounding,
) -> (result: Result<u64, PoolError>)
    requires
        0 < lower_sqrt_price <= upper_sqrt_price,
    ensures
        0 <= amount_a_spec(
            liquidity as int,
            lower_sqrt_price as int,
            upper_sqrt_price as int,
            rounding,
        ),
        ({
            let v = amount_a_spec(
                liquidity as int,
                lower_sqrt_price as int,
                upper_sqrt_price as int,
                rounding,
            );
            if v <= u64::MAX {
                result == Ok::<u64, PoolError>(v as u64)
            } else {
                result == Err::<u64, PoolError>(PoolError::MathOverflow)
            }
        }),
{
    let delta = upper_sqrt_price - lower_sqrt_price;
    proof {
        let li = liquidity as int;
        let di = delta as int;
        let ui = upper_sqrt_price as int;
        lemma_mul_nonnegative(li, di);
        lemma_ceil_div_bounds(li * di, ui);
        // The first division cannot overflow: delta < upper, so the rounded
        // quotient is at most liquidity.
        if li > 0 {
            lemma_mul_left_inequality(li, di, ui);
        } else {
            assert(li * di == 0) by (nonlinear_arith)
                requires
                    li == 0,
            ;
        }
        lemma_ceil_div_least(li * di, ui, li);
    }
    let step = match mul_div(liquidity, delta, upper_sqrt_price, rounding) {
        Ok(v) => v,
        Err(_) => {
            return Err(PoolError::MathOverflow);
        },
    };
    let amount = div_round(step, lower_sqrt_price, rounding);
    proof {
        let n = liquidity as int * (delta as int);
        let li = lower_sqrt_price as int;
        let ui = upper_sqrt_price as int;
        lemma_mul_nonnegative(liquidity as int, delta as int);
        match rounding {
            Rounding::Down => {
                lemma_div_denominator(n, ui, li);
            },
            Rounding::Up => {
                lemma_ceil_div_compose(n, ui, li);
            },
        }
        lemma_mul_is_commutative(ui, li);
        lemma_mul_strictly_positive(li, ui);
        lemma_ceil_div_bounds(n, li * ui);
    }
    if amount > 0xffffffffffffffff {
        Err(PoolError::MathOverflow)
    } else {
        Ok(amount as u64)
    }
}

/// Amount of asset B for a liquidity delta between `lower_sqrt_price` and
/// `upper_sqrt_price`; fails exactly when the rounded amount does not fit in
/// a `u64`.
pub fn get_amount_b_from_liquidity_delta(
    liquidity: u128,
    lower_sqrt_price: u128,
    upper_sqrt_price: u128,
    rounding: Rounding,
) -> (result: Result<u64, PoolError>)
    requires
        lower_sqrt_price <= upper_sqrt_price,
    ensures
        0 <= amount_b_spec(
            liquidity as int,
            lower_sqrt_price as int,
            upper_sqrt_price as int,
            rounding,
        ),
        ({
            let v = amount_b_spec(
                liquidity as int,
                lower_sqrt_price as int,
                upper_sqrt_price as int,
                rounding,
            );
            if v <= u64::MAX {
                result == Ok::<u64, PoolError>(v as u64)
            } else {
                result == Err::<u64, PoolError>(PoolError::MathOverflow)
            }
        }),
{
    let delta = upper_sqrt_price - lower_sqrt_price;
    proof {
        lemma_mul_nonnegative(liquidity as int, delta as int);
        lemma_ceil_div_bounds(liquidity as int * (delta as int), pow2_128());
    }
    let v = mul_shr_128(liquidity, delta, rounding);
    if v > 0xffffffffffffffff {
        Err(PoolError::MathOverflow)
    } else {
        Ok(v as u64)
    }
}

/// Whether a pool's immutable price configuration is admissible: bounds
/// inside the global range, strictly ordered, and the start price between
/// them.
pub open spec fn initialize_price_range_ok(
    sqrt_min_price: u128,
    sqrt_max_price: u128,
    sqrt_price: u128,
) -> bool {
    &&& MIN_SQRT_PRICE <= sqrt_min_price
    &&& sqrt_min_price < sqrt_max_price
    &&& sqrt_max_price <= MAX_SQRT_PRICE
    &&& sqrt_min_price <= sqrt_price <= sqrt_max_price
}

/// Asset amounts required to back `liquidity` at pool creation, both rounded
/// up so that the pool is never under-collateralized. Fails with
/// `InvalidPriceRange` when the price configuration is inadmissible, and with
/// `MathOverflow` when an amount does not fit in a `u64`.
pub fn get_initialize_amounts(
    sqrt_min_price: u128,
    sqrt_max_price: u128,
    sqrt_price: u128,
    liquidity: u128,
) -> (result: Result<(u64, u64), PoolError>)
    ensures
        initialize_price_range_ok(sqrt_min_price, sqrt_max_price, sqrt_price) ==> 0
            <= amount_a_spec(liquidity as int, sqrt_price as int, sqrt_max_price as int,
        Rounding::Up) && 0 <= amount_b_spec(
            liquidity as int,
            sqrt_min_price as int,
            sqrt_price as int,
            Rounding::Up,
        ),
        ({
            let va = amount_a_spec(
                liquidity as int,
                sqrt_price as int,
                sqrt_max_price as int,
                Rounding::Up,
            );
            let vb = amount_b_spec(
                liquidity as int,
                sqrt_min_price as int,
                sqrt_price as int,
                Rounding::Up,
            );
            if !initialize_price_range_ok(sqrt_min_price, sqrt_max_price, sqrt_price) {
                result == Err::<(u64, u64), PoolError>(PoolError::InvalidPriceRange)
            } else if va > u64::MAX || vb > u64::MAX {
                result == Err::<(u64, u64), PoolError>(PoolError::MathOverflow)
            } else {
                result == Ok::<(u64, u64), PoolError>((va as u64, vb as u64))
            }
        }),
{
    if !(sqrt_min_price >= MIN_SQRT_PRICE && sqrt_min_price < sqrt_max_price
        && sqrt_max_price <= MAX_SQRT_PRICE && sqrt_price >= sqrt_min_price
        && sqrt_price <= sqrt_max_price) {
        return Err(PoolError::InvalidPriceRange);
    }
    let amount_a = match get_amount_a_from_liquidity_delta(
        liquidity,
        sqrt_price,
        sqrt_max_price,
        Rounding::Up,
    ) {
        Ok(v) => v,
        Err(e) => {
            return Err(e);
        },
    };
    let amount_b = match get_amount_b_from_liquidity_delta(
        liquidity,
        sqrt_min_price,
        sqrt_price,
        Rounding::Up,
    ) {
        Ok(v) => v,
        Err(e) => {
            return Err(e);
        },
    };
    Ok((amount_a, amount_b))
}

/// For the same liquidity and price range, the upward-rounded asset amounts
/// are never below the downward-rounded ones — the rounding asymmetry can
/// only leave residual value in the pool, never drain it.
pub proof fn lemma_amounts_up_dominate_down(liquidity: int, lower: int, upper: int)
    requires
        0 <= liquidity,
        0 < lower <= upper,
    ensures
        amount_a_spec(liquidity, lower, upper, Rounding::Down) <= amount_a_spec(
            liquidity,
            lower,
            upper,
            Rounding::Up,
        ),
        amount_b_spec(liquidity, lower, upper, Rounding::Down) <= amount_b_spec(
            liquidity,
            lower,
            upper,
            Rounding::Up,
        ),
{
    lemma_mul_nonnegative(liquidity, upper - lower);
    lemma_mul_strictly_positive(lower, upper);
    lemma_ceil_div_bounds(liquidity * (upper - lower), lower * upper);
    lemma_ceil_div_bounds(liquidity * (upper - lower), pow2_128());
}

/// Over the whole admissible price range, the upward-rounded asset-A amount
/// for a liquidity delta up to `LIQUIDITY_MAX` fits in a `u64`.
pub proof fn lemma_amount_a_fits(liquidity: int, lower: int, upper: int)
    requires
        0 <= liquidity <= LIQUIDITY_MAX,
        MIN_SQRT_PRICE <= lower <= upper,
        upper <= MAX_SQRT_PRICE,
    ensures
        amount_a_spec(liquidity, lower, upper, Rounding::Up) <= u64::MAX,
        amount_a_spec(liquidity, lower, upper, Rounding::Down) <= u64::MAX,
{
    let n = liquidity * (upper - lower);
    let bound: int = 7922667352106697926;
    lemma_mul_nonnegative(liquidity, upper - lower);
    lemma_mul_strictly_positive(lower, upper);
    // n <= liquidity * upper
    if liquidity > 0 {
        lemma_mul_left_inequality(liquidity, upper - lower, upper);
    } else {
        lemma_mul_by_zero_is_zero(upper - lower);
        lemma_mul_nonnegative(liquidity, upper);
    }
    lemma_ceil_div_monotone(n, liquidity * upper, lower * upper);
    // ceil((liquidity * upper) / (lower * upper)) == ceil(liquidity / lower)
    lemma_ceil_div_scale(liquidity, lower, upper);
    lemma_mul_is_commutative(liquidity, upper);
    // ceil(liquidity / lower) <= ceil(LIQUIDITY_MAX / MIN_SQRT_PRICE)
    assert(bound * MIN_SQRT_PRICE >= LIQUIDITY_MAX);
    lemma_mul_left_inequality(bound, MIN_SQRT_PRICE as int, lower);
    lemma_ceil_div_least(liquidity, lower, bound);
    lemma_ceil_div_bounds(n, lower * upper);
}

/// Over the whole admissible price range, the upward-rounded asset-B amount
/// for a liquidity delta up to `LIQUIDITY_MAX` fits in a `u64`.
pub proof fn lemma_amount_b_fits(liquidity: int, lower: int, upper: int)
    requires
        0 <= liquidity <= LIQUIDITY_MAX,
        MIN_SQRT_PRICE <= lower <= upper,
        upper <= MAX_SQRT_PRICE,
    ensures
        amount_b_spec(liquidity, lower, upper, Rounding::Up) <= u64::MAX,
        amount_b_spec(liquidity, lower, upper, Rounding::Down) <= u64::MAX,
{
    let n = liquidity * (upper - lower);
    let bound: int = 7922667352106697926;
    lemma_mul_nonnegative(liquidity, upper - lower);
    lemma_mul_upper_bound(
        liquidity,
        LIQUIDITY_MAX as int,
        upper - lower,
        MAX_SQRT_PRICE as int - MIN_SQRT_PRICE as int,
    );
    lemma_ceil_div_monotone(
        n,
        (LIQUIDITY_MAX as int) * (MAX_SQRT_PRICE as int - MIN_SQRT_PRICE as int),
        pow2_128(),
    );
    assert(bound * pow2_128() >= (LIQUIDITY_MAX as int) * (MAX_SQRT_PRICE as int
        - MIN_SQRT_PRICE as int));
    lemma_ceil_div_least(
        (LIQUIDITY_MAX as int) * (MAX_SQRT_PRICE as int - MIN_SQRT_PRICE as int),
        pow2_128(),
        bound,
    );
    lemma_ceil_div_bounds(n, pow2_128());
}

} // verus!
