//! Structured event records handed to the external observability
//! collaborator after each successful operation. The crate only defines
//! their shapes; the boundary layer fills and emits them.

use crate::config::PoolFeeParameters;
use vstd::prelude::*;

verus! {

/// Emitted after a config template is created.
#[derive(Clone, Copy, Debug, PartialEq, Eq)]
pub struct EvtCreateConfig {
    pub pool_fees: PoolFeeParameters,
    pub config: u64,
    pub vault_config_key: u64,
    pub pool_creator_authority: u64,
    pub activation_type: u8,
    pub collect_fee_mode: u8,
    pub sqrt_min_price: u128,
    pub sqrt_max_price: u128,
    pub index: u64,
}

/// Emitted after a pool is created.
#[derive(Clone, Copy, Debug, PartialEq, Eq)]
pub struct EvtInitializePool {
    pub pool: u64,
    pub token_a_mint: u64,
    pub token_b_mint: u64,
    pub pool_fees: PoolFeeParameters,
    pub creator: u64,
    pub payer: u64,
    pub activation_point: u64,
    pub activation_type: u8,
    pub token_a_flag: u8,
    pub token_b_flag: u8,
    pub sqrt_price: u128,
    pub liquidity: u128,
    pub sqrt_min_price: u128,
    pub sqrt_max_price: u128,
    pub alpha_vault: u64,
    pub collect_fee_mode: u8,
    pub token_a_amount: u64,
    pub token_b_amount: u64,
    pub total_amount_a: u64,
    pub total_amount_b: u64,
    pub pool_type: u8,
}

/// Emitted after a position is created.
#[derive(Clone, Copy, Debug, PartialEq, Eq)]
pub struct EvtCreatePosition {
    pub pool: u64,
    pub owner: u64,
    pub position: u64,
    pub position_nft_mint: u64,
}

/// Emitted after protocol fees are withdrawn.
#[derive(Clone, Copy, Debug, PartialEq, Eq)]
pub struct EvtClaimProtocolFee {
    pub pool: u64,
    pub token_a_amount: u64,
    pub token_b_amount: u64,
}

/// Emitted after a reward slot is armed.
#[derive(Clone, Copy, Debug, PartialEq, Eq)]
pub struct EvtInitializeReward {
    pub pool: u64,
    pub reward_mint: u64,
    pub funder: u64,
    pub creator: u64,
    pub reward_duration: u64,
    pub reward_index: u8,
}

/// Emitted after a reward slot's duration is changed.
#[derive(Clone, Copy, Debug, PartialEq, Eq)]
pub struct EvtUpdateRewardDuration {
    pub pool: u64,
    pub old_reward_duration: u64,
    pub new_reward_duration: u64,
    pub reward_index: u8,
}

/// Emitted after a reward slot changes funder.
#[derive(Clone, Copy, Debug, PartialEq, Eq)]
pub struct EvtUpdateRewardFunder {
    pub pool: u64,
    pub reward_index: u8,
    pub old_funder: u64,
    pub new_funder: u64,
}

} // verus!
