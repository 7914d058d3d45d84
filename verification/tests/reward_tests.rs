use cp_amm::config::POOL_TYPE_CUSTOMIZABLE;
use cp_amm::constants::{
    MAX_REWARD_DURATION, MAX_SQRT_PRICE, MIN_REWARD_DURATION, MIN_SQRT_PRICE, NUM_REWARDS,
};
use cp_amm::config::PoolFeeParameters;
use cp_amm::errors::PoolError;
use cp_amm::pool::Pool;
use cp_amm::reward::Role;

fn test_pool() -> Pool {
    let fees = PoolFeeParameters {
        base_fee_numerator: 0,
        protocol_fee_percent: 0,
        partner_fee_percent: 0,
        referral_fee_percent: 0,
    };
    Pool::initialize(
        1, fees, 10, 11, 20, 21, 0, 2, MIN_SQRT_PRICE, MAX_SQRT_PRICE, 1 << 70, 0, 0, 0, 0, 0, 0,
        POOL_TYPE_CUSTOMIZABLE,
    )
}

fn armed_pool(duration: u64, funder: u64) -> Pool {
    let mut pool = test_pool();
    pool.init_reward(0, duration, 500, 501, funder, 0, Role::Admin).unwrap();
    pool
}

#[test]
fn init_reward_arms_a_slot() {
    let pool = armed_pool(3600, 77);
    let slot = &pool.reward_infos[0];
    assert!(slot.initialized);
    assert_eq!(slot.mint, 500);
    assert_eq!(slot.vault, 501);
    assert_eq!(slot.funder, 77);
    assert_eq!(slot.reward_duration, 3600);
    assert_eq!(slot.reward_duration_end, 0);
    assert!(!pool.reward_infos[1].initialized);
}

#[test]
fn init_reward_rejects_out_of_range_index() {
    let mut pool = test_pool();
    assert_eq!(
        pool.init_reward(NUM_REWARDS, 3600, 500, 501, 77, 0, Role::Admin),
        Err(PoolError::InvalidRewardIndex)
    );
}

#[test]
fn init_reward_rejects_out_of_bounds_duration() {
    let mut pool = test_pool();
    assert_eq!(
        pool.init_reward(0, MIN_REWARD_DURATION - 1, 500, 501, 77, 0, Role::Admin),
        Err(PoolError::InvalidRewardDuration)
    );
    assert_eq!(
        pool.init_reward(0, MAX_REWARD_DURATION + 1, 500, 501, 77, 0, Role::Admin),
        Err(PoolError::InvalidRewardDuration)
    );
}

#[test]
fn init_reward_rejects_armed_slot() {
    let mut pool = armed_pool(3600, 77);
    assert_eq!(
        pool.init_reward(0, 3600, 500, 501, 77, 0, Role::Admin),
        Err(PoolError::RewardInitialized)
    );
}

#[test]
fn init_reward_rejects_unauthorized_caller() {
    let mut pool = test_pool();
    assert_eq!(
        pool.init_reward(0, 3600, 500, 501, 77, 0, Role::Unauthorized),
        Err(PoolError::Unauthorized)
    );
    assert!(!pool.reward_infos[0].initialized);
}

#[test]
fn update_reward_duration_locked_while_campaign_runs() {
    let mut pool = armed_pool(3600, 77);
    pool.reward_infos[0].reward_duration_end = 2000;
    assert_eq!(
        pool.update_reward_duration(0, 7200, 1500, Role::Admin),
        Err(PoolError::RewardCampaignInProgress)
    );
    assert_eq!(pool.reward_infos[0].reward_duration, 3600);
    assert_eq!(pool.update_reward_duration(0, 7200, 2500, Role::Admin), Ok((3600, 7200)));
    assert_eq!(pool.reward_infos[0].reward_duration, 7200);
}

#[test]
fn update_reward_duration_rejects_identical_duration() {
    let mut pool = armed_pool(3600, 77);
    assert_eq!(
        pool.update_reward_duration(0, 3600, 10, Role::Admin),
        Err(PoolError::IdenticalRewardDuration)
    );
}

#[test]
fn update_reward_duration_rejects_unarmed_slot() {
    let mut pool = test_pool();
    assert_eq!(
        pool.update_reward_duration(1, 3600, 10, Role::Admin),
        Err(PoolError::RewardUninitialized)
    );
}

#[test]
fn update_reward_duration_by_funder_role() {
    let mut pool = armed_pool(3600, 77);
    assert_eq!(pool.update_reward_duration(0, 1800, 10, Role::Funder), Ok((3600, 1800)));
}

#[test]
fn update_reward_funder_rejects_identical_funder() {
    let mut pool = armed_pool(3600, 77);
    assert_eq!(pool.update_reward_funder(0, 77, Role::Admin), Err(PoolError::IdenticalFunder));
}

#[test]
fn update_reward_funder_works_while_campaign_runs() {
    let mut pool = armed_pool(3600, 77);
    pool.reward_infos[0].reward_duration_end = u64::MAX;
    assert_eq!(pool.update_reward_funder(0, 88, Role::Funder), Ok((77, 88)));
    assert_eq!(pool.reward_infos[0].funder, 88);
}

#[test]
fn update_reward_funder_rejects_unauthorized_caller() {
    let mut pool = armed_pool(3600, 77);
    assert_eq!(pool.update_reward_funder(0, 88, Role::Unauthorized), Err(PoolError::Unauthorized));
    assert_eq!(pool.reward_infos[0].funder, 77);
}

#[test]
fn update_reward_funder_rejects_unarmed_slot() {
    let mut pool = test_pool();
    assert_eq!(
        pool.update_reward_funder(0, 88, Role::Admin),
        Err(PoolError::RewardUninitialized)
    );
}

#[test]
fn update_reward_funder_rejects_out_of_range_index() {
    let mut pool = test_pool();
    assert_eq!(
        pool.update_reward_funder(NUM_REWARDS, 88, Role::Admin),
        Err(PoolError::InvalidRewardIndex)
    );
}
