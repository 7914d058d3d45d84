use vstd::prelude::*;

verus! {

/// Smallest square-root price a pool may be configured with (Q64.64 fixed point).
pub const MIN_SQRT_PRICE: u128 = 4295048016;

/// Largest square-root price a pool may be configured with (Q64.64 fixed point).
pub const MAX_SQRT_PRICE: u128 = 79226673521066979257578248091;

/// Shortest admissible reward campaign, in seconds.
pub const MIN_REWARD_DURATION: u64 = 1;

/// Longest admissible reward campaign, in seconds.
pub const MAX_REWARD_DURATION: u64 = 31536000;

/// Number of independent reward slots per pool.
pub const NUM_REWARDS: usize = 2;

/// Largest liquidity delta for which a modify-liquidity amount is guaranteed
/// to fit in a `u64` over the whole admissible price range.
pub const LIQUIDITY_MAX: u128 = 34028236692093846346337460743;

} // verus!
