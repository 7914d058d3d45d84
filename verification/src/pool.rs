//! The pool state machine: global liquidity, price configuration, protocol
//! fee accrual and the reward slots, with the add/remove-liquidity and
//! fee-claim operations built on the curve and arithmetic layers.
//!
//! Every operation validates fully before mutating any field: a failed
//! operation returns its error with zero state change.

use crate::config::{Config, PoolFeeParameters, CONFIG_TYPE_DYNAMIC, POOL_TYPE_CUSTOMIZABLE};
use crate::constants::{LIQUIDITY_MAX, NUM_REWARDS};
use crate::curve::{
    amount_a_spec, amount_b_spec, get_amount_a_from_liquidity_delta,
    get_amount_b_from_liquidity_delta, get_initialize_amounts, initialize_price_range_ok,
    lemma_amount_a_fits, lemma_amount_b_fits, lemma_amounts_up_dominate_down,
};
use crate::errors::PoolError;
use crate::math::Rounding;
use crate::position::Position;
use crate::reward::RewardInfo;
use vstd::prelude::*;

verus! {

/// One trading pair's shared liquidity pool.
#[verifier::ext_equal]
#[derive(Debug, PartialEq)]
pub struct Pool {
    /// Fee configuration fixed at creation.
    pub pool_fees: PoolFeeParameters,
    /// Identity that created the pool.
    pub creator: u64,
    /// Identifier of asset A.
    pub token_a_mint: u64,
    /// Identifier of asset B.
    pub token_b_mint: u64,
    /// Identifier of the vault holding asset A.
    pub token_a_vault: u64,
    /// Identifier of the vault holding asset B.
    pub token_b_vault: u64,
    /// Identifier of the whitelisted vault, zero when there is none.
    pub whitelisted_vault: u64,
    /// Identity allowed to administer the pool's reward slots.
    pub pool_creator_authority: u64,
    /// Lower bound of the operating square-root price range, immutable.
    pub sqrt_min_price: u128,
    /// Upper bound of the operating square-root price range, immutable.
    pub sqrt_max_price: u128,
    /// Current square-root price, always within the bounds.
    pub sqrt_price: u128,
    /// Total active liquidity across all positions.
    pub liquidity: u128,
    /// Accrued, unclaimed protocol fee balance in asset A.
    pub protocol_fee_a: u64,
    /// Accrued, unclaimed protocol fee balance in asset B.
    pub protocol_fee_b: u64,
    /// Point (slot or time) at which trading activates.
    pub activation_point: u64,
    /// How the activation point is measured.
    pub activation_type: u8,
    /// Program flag of asset A.
    pub token_a_flag: u8,
    /// Program flag of asset B.
    pub token_b_flag: u8,
    /// In which assets trading fees are collected.
    pub collect_fee_mode: u8,
    /// What kind of pool this is.
    pub pool_type: u8,
    /// The reward campaign slots, always exactly `NUM_REWARDS` of them.
    pub reward_infos: Vec<RewardInfo>,
}

/// Asset amounts for one liquidity change at the pool's current price.
#[derive(Clone, Copy, Debug, PartialEq, Eq)]
pub struct ModifyLiquidityResult {
    pub token_a_amount: u64,
    pub token_b_amount: u64,
}

/// `pool` with its total liquidity replaced.
pub open spec fn pool_with_liquidity(pool: Pool, liquidity: u128) -> Pool {
    Pool { liquidity, ..pool }
}

/// `position` with its owned liquidity replaced.
pub open spec fn position_with_liquidity(position: Position, unlocked_liquidity: u128) -> Position {
    Position { unlocked_liquidity, ..position }
}

/// `pool` with its protocol fee balances replaced.
pub open spec fn pool_with_protocol_fees(pool: Pool, fee_a: u64, fee_b: u64) -> Pool {
    Pool { protocol_fee_a: fee_a, protocol_fee_b: fee_b, ..pool }
}

impl Pool {
    /// Pool invariant: the price configuration is admissible and every
    /// reward slot is well formed.
    pub open spec fn wf(self) -> bool {
        &&& initialize_price_range_ok(self.sqrt_min_price, self.sqrt_max_price, self.sqrt_price)
        &&& self.reward_infos.len() == NUM_REWARDS
        &&& forall|i: int|
            0 <= i < self.reward_infos.len() ==> (#[trigger] self.reward_infos[i]).wf()
    }

    /// A new pool with the given configuration, the given starting
    /// liquidity, no accrued protocol fees and all reward slots unused.
    pub fn initialize(
        creator: u64,
        pool_fees: PoolFeeParameters,
        token_a_mint: u64,
        token_b_mint: u64,
        token_a_vault: u64,
        token_b_vault: u64,
        whitelisted_vault: u64,
        pool_creator_authority: u64,
        sqrt_min_price: u128,
        sqrt_max_price: u128,
        sqrt_price: u128,
        activation_point: u64,
        activation_type: u8,
        token_a_flag: u8,
        token_b_flag: u8,
        liquidity: u128,
        collect_fee_mode: u8,
        pool_type: u8,
    ) -> (pool: Pool)
        requires
            initialize_price_range_ok(sqrt_min_price, sqrt_max_price, sqrt_price),
        ensures
            pool.wf(),
            pool.pool_fees == pool_fees,
            pool.creator == creator,
            pool.token_a_mint == token_a_mint,
            pool.token_b_mint == token_b_mint,
            pool.token_a_vault == token_a_vault,
            pool.token_b_vault == token_b_vault,
            pool.whitelisted_vault == whitelisted_vault,
            pool.pool_creator_authority == pool_creator_authority,
            pool.sqrt_min_price == sqrt_min_price,
            pool.sqrt_max_price == sqrt_max_price,
            pool.sqrt_price == sqrt_price,
            pool.liquidity == liquidity,
            pool.protocol_fee_a == 0,
            pool.protocol_fee_b == 0,
            pool.activation_point == activation_point,
            pool.activation_type == activation_type,
            pool.token_a_flag == token_a_flag,
            pool.token_b_flag == token_b_flag,
            pool.collect_fee_mode == collect_fee_mode,
            pool.pool_type == pool_type,
            pool.reward_infos.len() == NUM_REWARDS,
            forall|i: int|
                0 <= i < pool.reward_infos.len() ==> (#[trigger] pool.reward_infos[i])
                    == RewardInfo::blank(),
    {
        let mut reward_infos: Vec<RewardInfo> = Vec::new();
        let mut k: usize = 0;
        while k < NUM_REWARDS
            invariant
                k <= NUM_REWARDS,
                reward_infos.len() == k,
                forall|i: int|
                    0 <= i < k as int ==> (#[trigger] reward_infos[i]) == RewardInfo::blank(),
            decreases NUM_REWARDS - k,
        {
            reward_infos.push(RewardInfo::new_blank());
            k = k + 1;
        }
        Pool {
            pool_fees,
            creator,
            token_a_mint,
            token_b_mint,
            token_a_vault,
            token_b_vault,
            whitelisted_vault,
            pool_creator_authority,
            sqrt_min_price,
            sqrt_max_price,
            sqrt_price,
            liquidity,
            protocol_fee_a: 0,
            protocol_fee_b: 0,
            activation_point,
            activation_type,
            token_a_flag,
            token_b_flag,
            collect_fee_mode,
            pool_type,
            reward_infos,
        }
    }

    /// Converts a liquidity change at the pool's current price into the two
    /// asset amounts. Callers adding liquidity must pass `Rounding::Up` (the
    /// provider pays at least enough to back the liquidity) and callers
    /// removing liquidity must pass `Rounding::Down` (the provider never
    /// withdraws more than the liquidity entitles them to).
    pub fn get_amounts_for_modify_liquidity(
        &self,
        liquidity_delta: u128,
        rounding: Rounding,
    ) -> (result: Result<ModifyLiquidityResult, PoolError>)
        requires
            self.wf(),
        ensures
            ({
                let va = amount_a_spec(
                    liquidity_delta as int,
                    self.sqrt_price as int,
                    self.sqrt_max_price as int,
                    rounding,
                );
                let vb = amount_b_spec(
                    liquidity_delta as int,
                    self.sqrt_min_price as int,
                    self.sqrt_price as int,
                    rounding,
                );
                if va <= u64::MAX && vb <= u64::MAX {
                    result == Ok::<ModifyLiquidityResult, PoolError>(
                        ModifyLiquidityResult {
                            token_a_amount: va as u64,
                            token_b_amount: vb as u64,
                        },
                    )
                } else {
                    result == Err::<ModifyLiquidityResult, PoolError>(PoolError::MathOverflow)
                }
            }),
    {
        let token_a_amount = match get_amount_a_from_liquidity_delta(
            liquidity_delta,
            self.sqrt_price,
            self.sqrt_max_price,
            rounding,
        ) {
            Ok(v) => v,
            Err(e) => {
                return Err(e);
            },
        };
        let token_b_amount = match get_amount_b_from_liquidity_delta(
            liquidity_delta,
            self.sqrt_min_price,
            self.sqrt_price,
            rounding,
        ) {
            Ok(v) => v,
            Err(e) => {
                return Err(e);
            },
        };
        Ok(ModifyLiquidityResult { token_a_amount, token_b_amount })
    }

    /// Credits `liquidity_delta` to both the pool total and the position.
    /// Validates both additions before committing either, so a failed call
    /// leaves both records unchanged.
    pub fn apply_add_liquidity(
        &mut self,
        position: &mut Position,
        liquidity_delta: u128,
    ) -> (result: Result<(), PoolError>)
        requires
            liquidity_delta > 0,
        ensures
            old(self).liquidity + liquidity_delta <= u128::MAX && old(position).unlocked_liquidity
                + liquidity_delta <= u128::MAX ==> result == Ok::<(), PoolError>(()) && *final(self)
                == pool_with_liquidity(
                *old(self),
                (old(self).liquidity + liquidity_delta) as u128,
            ) && *final(position) == position_with_liquidity(
                *old(position),
                (old(position).unlocked_liquidity + liquidity_delta) as u128,
            ),
            !(old(self).liquidity + liquidity_delta <= u128::MAX && old(
                position,
            ).unlocked_liquidity + liquidity_delta <= u128::MAX) ==> result == Err::<(), PoolError>(
                PoolError::MathOverflow,
            ) && *final(self) == *old(self) && *final(position) == *old(position),
    {
        if self.liquidity > u128::MAX - liquidity_delta || position.unlocked_liquidity > u128::MAX
            - liquidity_delta {
            return Err(PoolError::MathOverflow);
        }
        position.unlocked_liquidity = position.unlocked_liquidity + liquidity_delta;
        self.liquidity = self.liquidity + liquidity_delta;
        Ok(())
    }

    /// Debits `liquidity_delta` from both the pool total and the position.
    /// Fails with `InsufficientLiquidity` when the position does not own
    /// that much, leaving both records unchanged.
    pub fn apply_remove_liquidity(
        &mut self,
        position: &mut Position,
        liquidity_delta: u128,
    ) -> (result: Result<(), PoolError>)
        requires
            old(position).unlocked_liquidity <= old(self).liquidity,
        ensures
            liquidity_delta <= old(position).unlocked_liquidity ==> result == Ok::<(), PoolError>(
                (),
            ) && *final(self) == pool_with_liquidity(
                *old(self),
                (old(self).liquidity - liquidity_delta) as u128,
            ) && *final(position) == position_with_liquidity(
                *old(position),
                (old(position).unlocked_liquidity - liquidity_delta) as u128,
            ),
            liquidity_delta > old(position).unlocked_liquidity ==> result == Err::<(), PoolError>(
                PoolError::InsufficientLiquidity,
            ) && *final(self) == *old(self) && *final(position) == *old(position),
    {
        if liquidity_delta > position.unlocked_liquidity {
            return Err(PoolError::InsufficientLiquidity);
        }
        position.unlocked_liquidity = position.unlocked_liquidity - liquidity_delta;
        self.liquidity = self.liquidity - liquidity_delta;
        Ok(())
    }

    /// Withdraws up to the requested amounts from the accrued protocol
    /// fees: each withdrawn amount is the minimum of the cap and the accrued
    /// balance, and the balances decrease by exactly what is withdrawn.
    /// Permissionless; never fails.
    pub fn claim_protocol_fee(&mut self, max_amount_a: u64, max_amount_b: u64) -> (amounts: (
        u64,
        u64,
    ))
        ensures
            amounts.0 == if max_amount_a <= old(self).protocol_fee_a {
                max_amount_a
            } else {
                old(self).protocol_fee_a
            },
            amounts.1 == if max_amount_b <= old(self).protocol_fee_b {
                max_amount_b
            } else {
                old(self).protocol_fee_b
            },
            *final(self) == pool_with_protocol_fees(
                *old(self),
                (old(self).protocol_fee_a - amounts.0) as u64,
                (old(self).protocol_fee_b - amounts.1) as u64,
            ),
    {
        let token_a_amount = if max_amount_a <= self.protocol_fee_a {
            max_amount_a
        } else {
            self.protocol_fee_a
        };
        let token_b_amount = if max_amount_b <= self.protocol_fee_b {
            max_amount_b
        } else {
            self.protocol_fee_b
        };
        self.protocol_fee_a = self.protocol_fee_a - token_a_amount;
        self.protocol_fee_b = self.protocol_fee_b - token_b_amount;
        (token_a_amount, token_b_amount)
    }
}

/// Everything pool creation needs besides the config template: the chosen
/// price configuration and starting liquidity, the involved identifiers, and
/// the activation point already resolved by the boundary layer (which
/// substitutes the current point when the caller passed none).
#[derive(Clone, Copy, Debug, PartialEq, Eq)]
pub struct InitializePoolParameters {
    pub pool_fees: PoolFeeParameters,
    pub sqrt_min_price: u128,
    pub sqrt_max_price: u128,
    pub sqrt_price: u128,
    pub liquidity: u128,
    pub activation_point: u64,
    pub activation_type: u8,
    pub collect_fee_mode: u8,
    pub creator: u64,
    pub pool: u64,
    pub position_nft_mint: u64,
    pub token_a_mint: u64,
    pub token_b_mint: u64,
    pub token_a_vault: u64,
    pub token_b_vault: u64,
    pub whitelisted_vault: u64,
    pub token_a_flag: u8,
    pub token_b_flag: u8,
}

/// What pool creation produces: the new records and the asset amounts the
/// boundary layer must collect from the payer to back the liquidity.
#[derive(Debug, PartialEq)]
pub struct InitializePoolResult {
    pub pool: Pool,
    pub position: Position,
    pub token_a_amount: u64,
    pub token_b_amount: u64,
}

/// The state a pool created from `config` and `params` must be in: the
/// caller's configuration, the config's creator authority, no accrued fees,
/// and unused reward slots.
pub open spec fn is_freshly_initialized_pool(
    pool: Pool,
    config: Config,
    params: InitializePoolParameters,
) -> bool {
    &&& pool.pool_fees == params.pool_fees
    &&& pool.creator == params.creator
    &&& pool.token_a_mint == params.token_a_mint
    &&& pool.token_b_mint == params.token_b_mint
    &&& pool.token_a_vault == params.token_a_vault
    &&& pool.token_b_vault == params.token_b_vault
    &&& pool.whitelisted_vault == params.whitelisted_vault
    &&& pool.pool_creator_authority == config.pool_creator_authority
    &&& pool.sqrt_min_price == params.sqrt_min_price
    &&& pool.sqrt_max_price == params.sqrt_max_price
    &&& pool.sqrt_price == params.sqrt_price
    &&& pool.liquidity == params.liquidity
    &&& pool.protocol_fee_a == 0
    &&& pool.protocol_fee_b == 0
    &&& pool.activation_point == params.activation_point
    &&& pool.activation_type == params.activation_type
    &&& pool.token_a_flag == params.token_a_flag
    &&& pool.token_b_flag == params.token_b_flag
    &&& pool.collect_fee_mode == params.collect_fee_mode
    &&& pool.pool_type == POOL_TYPE_CUSTOMIZABLE
    &&& pool.reward_infos.len() == NUM_REWARDS
    &&& forall|i: int|
        0 <= i < pool.reward_infos.len() ==> (#[trigger] pool.reward_infos[i])
            == RewardInfo::blank()
}

/// Creates a pool and its creator's first position from a dynamic config
/// template: validates the price configuration, computes the upward-rounded
/// asset amounts backing the starting liquidity, and requires that at least
/// one of them is positive. Nothing is created when any check fails.
pub fn initialize_pool(config: &Config, params: InitializePoolParameters) -> (result: Result<
    InitializePoolResult,
    PoolError,
>)
    ensures
        ({
            let va = amount_a_spec(
                params.liquidity as int,
                params.sqrt_price as int,
                params.sqrt_max_price as int,
                Rounding::Up,
            );
            let vb = amount_b_spec(
                params.liquidity as int,
                params.sqrt_min_price as int,
                params.sqrt_price as int,
                Rounding::Up,
            );
            let range_ok = initialize_price_range_ok(
                params.sqrt_min_price,
                params.sqrt_max_price,
                params.sqrt_price,
            );
            if config.config_type != CONFIG_TYPE_DYNAMIC {
                result == Err::<InitializePoolResult, PoolError>(PoolError::InvalidConfigType)
            } else if !range_ok {
                result == Err::<InitializePoolResult, PoolError>(PoolError::InvalidPriceRange)
            } else if va > u64::MAX || vb > u64::MAX {
                result == Err::<InitializePoolResult, PoolError>(PoolError::MathOverflow)
            } else if va == 0 && vb == 0 {
                result == Err::<InitializePoolResult, PoolError>(PoolError::AmountIsZero)
            } else {
                &&& result matches Ok(r)
                &&& result matches Ok(r) ==> {
                    &&& r.token_a_amount == va as u64
                    &&& r.token_b_amount == vb as u64
                    &&& r.pool.wf()
                    &&& is_freshly_initialized_pool(r.pool, *config, params)
                    &&& r.position == (Position {
                        pool: params.pool,
                        nft_mint: params.position_nft_mint,
                        unlocked_liquidity: params.liquidity,
                    })
                }
            }
        }),
{
    if config.config_type != CONFIG_TYPE_DYNAMIC {
        return Err(PoolError::InvalidConfigType);
    }
    let (token_a_amount, token_b_amount) = match get_initialize_amounts(
        params.sqrt_min_price,
        params.sqrt_max_price,
        params.sqrt_price,
        params.liquidity,
    ) {
        Ok(v) => v,
        Err(e) => {
            return Err(e);
        },
    };
    if token_a_amount == 0 && token_b_amount == 0 {
        return Err(PoolError::AmountIsZero);
    }
    let pool = Pool::initialize(
        params.creator,
        params.pool_fees,
        params.token_a_mint,
        params.token_b_mint,
        params.token_a_vault,
        params.token_b_vault,
        params.whitelisted_vault,
        config.pool_creator_authority,
        params.sqrt_min_price,
        params.sqrt_max_price,
        params.sqrt_price,
        params.activation_point,
        params.activation_type,
        params.token_a_flag,
        params.token_b_flag,
        params.liquidity,
        params.collect_fee_mode,
        POOL_TYPE_CUSTOMIZABLE,
    );
    let position = Position::initialize(params.pool, params.position_nft_mint, params.liquidity);
    Ok(InitializePoolResult { pool, position, token_a_amount, token_b_amount })
}

/// No-loss round trip: over the whole admissible price range and for any
/// liquidity delta up to `LIQUIDITY_MAX`, the upward-rounded amounts charged
/// for adding liquidity fit in a `u64` and are never below the
/// downward-rounded amounts paid out for removing the same delta, and adding
/// then removing the delta returns both the pool total and the position's
/// liquidity to their starting values. The pool can retain residual value
/// from rounding, never lose it.
pub proof fn lemma_no_loss_round_trip(pool: Pool, position: Position, delta: u128)
    requires
        pool.wf(),
        1 <= delta <= LIQUIDITY_MAX,
        pool.liquidity + delta <= u128::MAX,
        position.unlocked_liquidity + delta <= u128::MAX,
    ensures
        amount_a_spec(delta as int, pool.sqrt_price as int, pool.sqrt_max_price as int,
            Rounding::Up) <= u64::MAX,
        amount_b_spec(delta as int, pool.sqrt_min_price as int, pool.sqrt_price as int,
            Rounding::Up) <= u64::MAX,
        amount_a_spec(delta as int, pool.sqrt_price as int, pool.sqrt_max_price as int,
            Rounding::Down) <= amount_a_spec(
            delta as int,
            pool.sqrt_price as int,
            pool.sqrt_max_price as int,
            Rounding::Up,
        ),
        amount_b_spec(delta as int, pool.sqrt_min_price as int, pool.sqrt_price as int,
            Rounding::Down) <= amount_b_spec(
            delta as int,
            pool.sqrt_min_price as int,
            pool.sqrt_price as int,
            Rounding::Up,
        ),
        pool_with_liquidity(
            pool_with_liquidity(pool, (pool.liquidity + delta) as u128),
            ((pool.liquidity + delta) as u128 - delta) as u128,
        ) == pool,
        position_with_liquidity(
            position_with_liquidity(position, (position.unlocked_liquidity + delta) as u128),
            ((position.unlocked_liquidity + delta) as u128 - delta) as u128,
        ) == position,
{
    lemma_amount_a_fits(delta as int, pool.sqrt_price as int, pool.sqrt_max_price as int);
    lemma_amount_b_fits(delta as int, pool.sqrt_min_price as int, pool.sqrt_price as int);
    lemma_amounts_up_dominate_down(
        delta as int,
        pool.sqrt_price as int,
        pool.sqrt_max_price as int,
    );
    lemma_amounts_up_dominate_down(
        delta as int,
        pool.sqrt_min_price as int,
        pool.sqrt_price as int,
    );
}

} // verus!
