//! Fee-tier and price-bound templates that pool creation consumes read-only.

use crate::constants::{MAX_SQRT_PRICE, MIN_SQRT_PRICE};
use crate::errors::PoolError;
use vstd::prelude::*;

verus! {

/// Config record kind: created with fixed price bounds by an administrator.
pub const CONFIG_TYPE_STATIC: u8 = 0;

/// Config record kind: price bounds are chosen per pool at creation.
pub const CONFIG_TYPE_DYNAMIC: u8 = 1;

/// Pool kind created from a dynamic config.
pub const POOL_TYPE_CUSTOMIZABLE: u8 = 1;

/// Activation measured in slots.
pub const ACTIVATION_TYPE_SLOT: u8 = 0;

/// Activation measured in timestamps.
pub const ACTIVATION_TYPE_TIMESTAMP: u8 = 1;

/// Trading fees are collected in both assets.
pub const COLLECT_FEE_MODE_BOTH_TOKEN: u8 = 0;

/// Trading fees are collected in asset B only.
pub const COLLECT_FEE_MODE_ONLY_B: u8 = 1;

/// Whether a byte names a known activation type.
pub open spec fn activation_type_ok(v: u8) -> bool {
    v == ACTIVATION_TYPE_SLOT || v == ACTIVATION_TYPE_TIMESTAMP
}

/// Whether a byte names a known collect-fee mode.
pub open spec fn collect_fee_mode_ok(v: u8) -> bool {
    v == COLLECT_FEE_MODE_BOTH_TOKEN || v == COLLECT_FEE_MODE_ONLY_B
}

/// Fee configuration a pool is created with; fixed at creation and carried
/// as plain numbers — the fee arithmetic itself is outside this crate's
/// scope.
#[derive(Clone, Copy, Debug, PartialEq, Eq)]
pub struct PoolFeeParameters {
    /// Numerator of the base trading fee.
    pub base_fee_numerator: u64,
    /// Share of trading fees reserved for the protocol treasury, in percent.
    pub protocol_fee_percent: u8,
    /// Share of trading fees reserved for the partner, in percent.
    pub partner_fee_percent: u8,
    /// Share of trading fees reserved for referrals, in percent.
    pub referral_fee_percent: u8,
}

/// Caller-supplied template for a static config record.
#[derive(Clone, Copy, Debug, PartialEq, Eq)]
pub struct StaticConfigParameters {
    pub pool_fees: PoolFeeParameters,
    pub sqrt_min_price: u128,
    pub sqrt_max_price: u128,
    pub vault_config_key: u64,
    pub pool_creator_authority: u64,
    pub activation_type: u8,
    pub collect_fee_mode: u8,
}

/// A fee-tier/price-bound template, consumed read-only by pool creation.
#[derive(Clone, Copy, Debug, PartialEq, Eq)]
pub struct Config {
    pub index: u64,
    pub pool_fees: PoolFeeParameters,
    pub vault_config_key: u64,
    pub pool_creator_authority: u64,
    pub activation_type: u8,
    pub sqrt_min_price: u128,
    pub sqrt_max_price: u128,
    pub collect_fee_mode: u8,
    pub config_type: u8,
}

/// Whether the price bounds of a static config template are admissible.
pub open spec fn static_config_price_range_ok(sqrt_min_price: u128, sqrt_max_price: u128) -> bool {
    &&& MIN_SQRT_PRICE <= sqrt_min_price
    &&& sqrt_min_price < sqrt_max_price
    &&& sqrt_max_price <= MAX_SQRT_PRICE
}

/// Builds a static config record after validating its price bounds and its
/// type bytes; each rejected parameter maps to its own error.
pub fn create_static_config(index: u64, params: StaticConfigParameters) -> (result: Result<
    Config,
    PoolError,
>)
    ensures
        !static_config_price_range_ok(params.sqrt_min_price, params.sqrt_max_price) ==> result
            == Err::<Config, PoolError>(PoolError::InvalidPriceRange),
        static_config_price_range_ok(params.sqrt_min_price, params.sqrt_max_price)
            && !activation_type_ok(params.activation_type) ==> result == Err::<Config, PoolError>(
            PoolError::InvalidActivationType,
        ),
        static_config_price_range_ok(params.sqrt_min_price, params.sqrt_max_price)
            && activation_type_ok(params.activation_type) && !collect_fee_mode_ok(
            params.collect_fee_mode,
        ) ==> result == Err::<Config, PoolError>(PoolError::InvalidCollectFeeMode),
        static_config_price_range_ok(params.sqrt_min_price, params.sqrt_max_price)
            && activation_type_ok(params.activation_type) && collect_fee_mode_ok(
            params.collect_fee_mode,
        ) ==> result == Ok::<Config, PoolError>(
            Config {
                index,
                pool_fees: params.pool_fees,
                vault_config_key: params.vault_config_key,
                pool_creator_authority: params.pool_creator_authority,
                activation_type: params.activation_type,
                sqrt_min_price: params.sqrt_min_price,
                sqrt_max_price: params.sqrt_max_price,
                collect_fee_mode: params.collect_fee_mode,
                config_type: CONFIG_TYPE_STATIC,
            },
        ),
{
    if !(params.sqrt_min_price >= MIN_SQRT_PRICE && params.sqrt_max_price <= MAX_SQRT_PRICE
        && params.sqrt_min_price < params.sqrt_max_price) {
        return Err(PoolError::InvalidPriceRange);
    }
    if !(params.activation_type == ACTIVATION_TYPE_SLOT || params.activation_type
        == ACTIVATION_TYPE_TIMESTAMP) {
        return Err(PoolError::InvalidActivationType);
    }
    if !(params.collect_fee_mode == COLLECT_FEE_MODE_BOTH_TOKEN || params.collect_fee_mode
        == COLLECT_FEE_MODE_ONLY_B) {
        return Err(PoolError::InvalidCollectFeeMode);
    }
    Ok(
        Config {
            index,
            pool_fees: params.pool_fees,
            vault_config_key: params.vault_config_key,
            pool_creator_authority: params.pool_creator_authority,
            activation_type: params.activation_type,
            sqrt_min_price: params.sqrt_min_price,
            sqrt_max_price: params.sqrt_max_price,
            collect_fee_mode: params.collect_fee_mode,
            config_type: CONFIG_TYPE_STATIC,
        },
    )
}

} // verus!
