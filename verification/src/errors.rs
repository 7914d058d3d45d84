use vstd::prelude::*;

verus! {

/// Failures of the checked fixed-point arithmetic primitive.
#[derive(Clone, Copy, Debug, PartialEq, Eq)]
pub enum ArithmeticError {
    /// The exact result does not fit in the result type.
    Overflow,
    /// The denominator was zero.
    DivisionByZero,
}

/// Every way a pool, position, reward or config operation can be rejected.
/// Each rejected precondition maps to its own variant; a failed operation
/// leaves all state unchanged.
#[derive(Clone, Copy, Debug, PartialEq, Eq)]
pub enum PoolError {
    /// A price bound lies outside the admissible range, or the bounds are not
    /// strictly ordered, or the start price lies outside the bounds.
    InvalidPriceRange,
    /// Backing a new pool's liquidity would require zero of both assets.
    AmountIsZero,
    /// The config record is not of the kind the operation needs.
    InvalidConfigType,
    /// The activation type byte names no known activation type.
    InvalidActivationType,
    /// The collect-fee-mode byte names no known mode.
    InvalidCollectFeeMode,
    /// The reward index is not below `NUM_REWARDS`.
    InvalidRewardIndex,
    /// The reward duration lies outside the admissible bounds.
    InvalidRewardDuration,
    /// The reward slot is already initialized.
    RewardInitialized,
    /// The reward slot is not initialized yet.
    RewardUninitialized,
    /// The new reward duration equals the current one.
    IdenticalRewardDuration,
    /// The new funder equals the current one.
    IdenticalFunder,
    /// The reward campaign has not fully elapsed yet.
    RewardCampaignInProgress,
    /// The caller is neither the pool authority nor the slot's funder.
    Unauthorized,
    /// A position does not own the liquidity that should be removed.
    InsufficientLiquidity,
    /// An intermediate or final amount does not fit its integer type.
    MathOverflow,
}

} // verus!
