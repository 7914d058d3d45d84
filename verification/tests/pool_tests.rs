use cp_amm::config::{Config, PoolFeeParameters, CONFIG_TYPE_DYNAMIC, CONFIG_TYPE_STATIC,
    POOL_TYPE_CUSTOMIZABLE};
use cp_amm::constants::{MAX_SQRT_PRICE, MIN_SQRT_PRICE, NUM_REWARDS};
use cp_amm::errors::PoolError;
use cp_amm::math::Rounding;
use cp_amm::pool::{initialize_pool, InitializePoolParameters, Pool};
use cp_amm::position::Position;

fn fees() -> PoolFeeParameters {
    PoolFeeParameters {
        base_fee_numerator: 2_500_000,
        protocol_fee_percent: 20,
        partner_fee_percent: 0,
        referral_fee_percent: 20,
    }
}

fn test_pool(sqrt_min: u128, sqrt_max: u128, sqrt_price: u128, liquidity: u128) -> Pool {
    Pool::initialize(
        1, fees(), 10, 11, 20, 21, 0, 2, sqrt_min, sqrt_max, sqrt_price, 0, 0, 0, 0, liquidity, 0,
        POOL_TYPE_CUSTOMIZABLE,
    )
}

#[test]
fn test_modify_liquidit_wont_loss() {
    let sqrt_price: u128 = 1 << 64;
    let liquidity_delta: u128 = 1_000_000_000_000;
    let mut pool = test_pool(MIN_SQRT_PRICE, MAX_SQRT_PRICE, sqrt_price, 0);
    let mut position = Position::initialize(7, 8, 0);

    let result_0 = pool
        .get_amounts_for_modify_liquidity(liquidity_delta, Rounding::Up)
        .unwrap();
    pool.apply_add_liquidity(&mut position, liquidity_delta).unwrap();

    let result_1 = pool
        .get_amounts_for_modify_liquidity(liquidity_delta, Rounding::Down)
        .unwrap();
    pool.apply_remove_liquidity(&mut position, liquidity_delta).unwrap();

    assert_eq!(pool.liquidity, 0);
    assert_eq!(position.unlocked_liquidity, 0);

    assert!(result_0.token_a_amount >= result_1.token_a_amount);
    assert!(result_0.token_b_amount >= result_1.token_b_amount);
    // at this price the upward amounts are strictly larger
    assert_eq!((result_0.token_a_amount, result_0.token_b_amount), (1, 1));
    assert_eq!((result_1.token_a_amount, result_1.token_b_amount), (0, 0));
}

#[test]
fn add_then_remove_restores_nonzero_start() {
    let mut pool = test_pool(MIN_SQRT_PRICE, MAX_SQRT_PRICE, 1 << 70, 500);
    let mut position = Position::initialize(7, 8, 500);
    pool.apply_add_liquidity(&mut position, 125).unwrap();
    assert_eq!(pool.liquidity, 625);
    assert_eq!(position.unlocked_liquidity, 625);
    pool.apply_remove_liquidity(&mut position, 125).unwrap();
    assert_eq!(pool.liquidity, 500);
    assert_eq!(position.unlocked_liquidity, 500);
}

#[test]
fn remove_exceeding_balance_rejected_without_change() {
    let mut pool = test_pool(MIN_SQRT_PRICE, MAX_SQRT_PRICE, 1 << 70, 100);
    let mut position = Position::initialize(7, 8, 100);
    assert_eq!(
        pool.apply_remove_liquidity(&mut position, 101),
        Err(PoolError::InsufficientLiquidity)
    );
    assert_eq!(pool.liquidity, 100);
    assert_eq!(position.unlocked_liquidity, 100);
}

#[test]
fn add_liquidity_overflow_rejected_without_change() {
    let mut pool = test_pool(MIN_SQRT_PRICE, MAX_SQRT_PRICE, 1 << 70, 0);
    pool.liquidity = u128::MAX;
    let mut position = Position::initialize(7, 8, 0);
    assert_eq!(pool.apply_add_liquidity(&mut position, 1), Err(PoolError::MathOverflow));
    assert_eq!(pool.liquidity, u128::MAX);
    assert_eq!(position.unlocked_liquidity, 0);
}

#[test]
fn claim_protocol_fee_caps_at_accrued_balance() {
    let mut pool = test_pool(MIN_SQRT_PRICE, MAX_SQRT_PRICE, 1 << 70, 0);
    pool.protocol_fee_a = 1000;
    pool.protocol_fee_b = 500;
    let (a, b) = pool.claim_protocol_fee(10000, 200);
    assert_eq!((a, b), (1000, 200));
    assert_eq!((pool.protocol_fee_a, pool.protocol_fee_b), (0, 300));
}

#[test]
fn claim_protocol_fee_zero_amounts_are_not_an_error() {
    let mut pool = test_pool(MIN_SQRT_PRICE, MAX_SQRT_PRICE, 1 << 70, 0);
    let (a, b) = pool.claim_protocol_fee(0, 0);
    assert_eq!((a, b), (0, 0));
    assert_eq!((pool.protocol_fee_a, pool.protocol_fee_b), (0, 0));
}

fn dynamic_config() -> Config {
    Config {
        index: 3,
        pool_fees: fees(),
        vault_config_key: 0,
        pool_creator_authority: 42,
        activation_type: 0,
        sqrt_min_price: MIN_SQRT_PRICE,
        sqrt_max_price: MAX_SQRT_PRICE,
        collect_fee_mode: 0,
        config_type: CONFIG_TYPE_DYNAMIC,
    }
}

fn pool_params(liquidity: u128) -> InitializePoolParameters {
    InitializePoolParameters {
        pool_fees: fees(),
        sqrt_min_price: 1 << 64,
        sqrt_max_price: 1 << 65,
        sqrt_price: 1 << 64,
        liquidity,
        activation_point: 100,
        activation_type: 0,
        collect_fee_mode: 0,
        creator: 1,
        pool: 90,
        position_nft_mint: 91,
        token_a_mint: 10,
        token_b_mint: 11,
        token_a_vault: 20,
        token_b_vault: 21,
        whitelisted_vault: 0,
        token_a_flag: 0,
        token_b_flag: 0,
    }
}

#[test]
fn initialize_pool_happy_path() {
    let config = dynamic_config();
    let result = initialize_pool(&config, pool_params(1 << 70)).unwrap();
    assert_eq!(result.token_a_amount, 32);
    assert_eq!(result.token_b_amount, 0);
    let pool = &result.pool;
    assert_eq!(pool.liquidity, 1 << 70);
    assert_eq!(pool.sqrt_price, 1 << 64);
    assert_eq!(pool.pool_creator_authority, 42);
    assert_eq!(pool.pool_type, POOL_TYPE_CUSTOMIZABLE);
    assert_eq!((pool.protocol_fee_a, pool.protocol_fee_b), (0, 0));
    assert_eq!(pool.reward_infos.len(), NUM_REWARDS);
    assert!(pool.reward_infos.iter().all(|r| !r.initialized));
    assert_eq!(result.position.pool, 90);
    assert_eq!(result.position.nft_mint, 91);
    assert_eq!(result.position.unlocked_liquidity, 1 << 70);
}

#[test]
fn initialize_pool_rejects_static_config() {
    let mut config = dynamic_config();
    config.config_type = CONFIG_TYPE_STATIC;
    assert_eq!(
        initialize_pool(&config, pool_params(1 << 70)).unwrap_err(),
        PoolError::InvalidConfigType
    );
}

#[test]
fn initialize_pool_rejects_equal_price_bounds() {
    let config = dynamic_config();
    let mut params = pool_params(1 << 70);
    params.sqrt_max_price = params.sqrt_min_price;
    params.sqrt_price = params.sqrt_min_price;
    assert_eq!(initialize_pool(&config, params).unwrap_err(), PoolError::InvalidPriceRange);
}

#[test]
fn initialize_pool_rejects_zero_backing_amounts() {
    let config = dynamic_config();
    assert_eq!(initialize_pool(&config, pool_params(0)).unwrap_err(), PoolError::AmountIsZero);
}
