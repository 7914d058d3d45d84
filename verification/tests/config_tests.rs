use cp_amm::config::{
    create_static_config, PoolFeeParameters, StaticConfigParameters, ACTIVATION_TYPE_TIMESTAMP,
    COLLECT_FEE_MODE_ONLY_B, CONFIG_TYPE_STATIC,
};
use cp_amm::constants::{MAX_SQRT_PRICE, MIN_SQRT_PRICE};
use cp_amm::errors::PoolError;

fn params() -> StaticConfigParameters {
    StaticConfigParameters {
        pool_fees: PoolFeeParameters {
            base_fee_numerator: 2_500_000,
            protocol_fee_percent: 20,
            partner_fee_percent: 0,
            referral_fee_percent: 20,
        },
        sqrt_min_price: MIN_SQRT_PRICE,
        sqrt_max_price: MAX_SQRT_PRICE,
        vault_config_key: 0,
        pool_creator_authority: 9,
        activation_type: ACTIVATION_TYPE_TIMESTAMP,
        collect_fee_mode: COLLECT_FEE_MODE_ONLY_B,
    }
}

#[test]
fn create_static_config_happy_path() {
    let config = create_static_config(4, params()).unwrap();
    assert_eq!(config.index, 4);
    assert_eq!(config.sqrt_min_price, MIN_SQRT_PRICE);
    assert_eq!(config.sqrt_max_price, MAX_SQRT_PRICE);
    assert_eq!(config.pool_creator_authority, 9);
    assert_eq!(config.activation_type, ACTIVATION_TYPE_TIMESTAMP);
    assert_eq!(config.collect_fee_mode, COLLECT_FEE_MODE_ONLY_B);
    assert_eq!(config.config_type, CONFIG_TYPE_STATIC);
}

#[test]
fn create_static_config_rejects_unordered_bounds() {
    let mut p = params();
    p.sqrt_min_price = p.sqrt_max_price;
    assert_eq!(create_static_config(0, p).unwrap_err(), PoolError::InvalidPriceRange);
}

#[test]
fn create_static_config_rejects_min_below_global_min() {
    let mut p = params();
    p.sqrt_min_price = MIN_SQRT_PRICE - 1;
    assert_eq!(create_static_config(0, p).unwrap_err(), PoolError::InvalidPriceRange);
}

#[test]
fn create_static_config_rejects_max_above_global_max() {
    let mut p = params();
    p.sqrt_max_price = MAX_SQRT_PRICE + 1;
    assert_eq!(create_static_config(0, p).unwrap_err(), PoolError::InvalidPriceRange);
}

#[test]
fn create_static_config_rejects_unknown_activation_type() {
    let mut p = params();
    p.activation_type = 7;
    assert_eq!(create_static_config(0, p).unwrap_err(), PoolError::InvalidActivationType);
}

#[test]
fn create_static_config_rejects_unknown_collect_fee_mode() {
    let mut p = params();
    p.collect_fee_mode = 9;
    assert_eq!(create_static_config(0, p).unwrap_err(), PoolError::InvalidCollectFeeMode);
}
