//! Reward stream slots: up to `NUM_REWARDS` independent, time-bounded reward
//! campaigns per pool, each with a funder and a duration.
//!
//! A slot moves from uninitialized to initialized once and stays there;
//! whether a campaign is live is derived by comparing `reward_duration_end`
//! to the current time, which the caller passes in. Who may edit a slot is
//! resolved by the boundary layer into a [`Role`] that each operation
//! consumes as an opaque pass/fail capability.

use crate::constants::{MAX_REWARD_DURATION, MIN_REWARD_DURATION, NUM_REWARDS};
use crate::errors::PoolError;
use crate::pool::Pool;
use vstd::prelude::*;

verus! {

/// The capability under which a caller edits a reward slot, resolved by the
/// boundary layer: the pool's administrative authority, the slot's current
/// funder, or neither.
#[derive(Clone, Copy, Debug, PartialEq, Eq)]
pub enum Role {
    Admin,
    Funder,
    Unauthorized,
}

/// Whether a resolved role may edit a reward slot.
pub open spec fn role_can_edit(role: Role) -> bool {
    role != Role::Unauthorized
}

/// One reward campaign slot.
#[derive(Clone, Copy, Debug, PartialEq, Eq)]
pub struct RewardInfo {
    /// Whether the slot has been armed.
    pub initialized: bool,
    /// Identifier of the reward asset.
    pub mint: u64,
    /// Identifier of the vault holding the reward asset.
    pub vault: u64,
    /// Identity authorized to fund and adjust this slot.
    pub funder: u64,
    /// Campaign length, in seconds.
    pub reward_duration: u64,
    /// Absolute end time of the funded campaign; zero until funded.
    pub reward_duration_end: u64,
    /// Program flag of the reward asset.
    pub reward_token_flag: u8,
}

impl RewardInfo {
    /// The all-zero state of a slot that has never been armed.
    pub open spec fn blank() -> RewardInfo {
        RewardInfo {
            initialized: false,
            mint: 0,
            vault: 0,
            funder: 0,
            reward_duration: 0,
            reward_duration_end: 0,
            reward_token_flag: 0,
        }
    }

    /// A slot that has never been armed.
    pub fn new_blank() -> (r: RewardInfo)
        ensures
            r == RewardInfo::blank(),
    {
        RewardInfo {
            initialized: false,
            mint: 0,
            vault: 0,
            funder: 0,
            reward_duration: 0,
            reward_duration_end: 0,
            reward_token_flag: 0,
        }
    }

    /// Slot invariant: an armed slot has a duration within the admissible
    /// bounds.
    pub open spec fn wf(self) -> bool {
        self.initialized ==> MIN_REWARD_DURATION <= self.reward_duration <= MAX_REWARD_DURATION
    }
}

impl Pool {
    /// Arms reward slot `reward_index` with a reward asset, a funder and a
    /// campaign duration. The slot must be unused, the duration within
    /// bounds, and the caller must hold an editing role; each rejected
    /// precondition maps to its own error and leaves the pool unchanged.
    pub fn init_reward(
        &mut self,
        reward_index: usize,
        reward_duration: u64,
        mint: u64,
        vault: u64,
        funder: u64,
        reward_token_flag: u8,
        role: Role,
    ) -> (result: Result<(), PoolError>)
        requires
            old(self).reward_infos.len() == NUM_REWARDS,
        ensures
            reward_index >= NUM_REWARDS ==> result == Err::<(), PoolError>(
                PoolError::InvalidRewardIndex,
            ) && *final(self) == *old(self),
            reward_index < NUM_REWARDS && !(MIN_REWARD_DURATION <= reward_duration
                <= MAX_REWARD_DURATION) ==> result == Err::<(), PoolError>(
                PoolError::InvalidRewardDuration,
            ) && *final(self) == *old(self),
            reward_index < NUM_REWARDS && MIN_REWARD_DURATION <= reward_duration
                <= MAX_REWARD_DURATION && old(self).reward_infos[reward_index as int].initialized
                ==> result == Err::<(), PoolError>(PoolError::RewardInitialized) && *final(self)
                == *old(self),
            reward_index < NUM_REWARDS && MIN_REWARD_DURATION <= reward_duration
                <= MAX_REWARD_DURATION && !old(self).reward_infos[reward_index as int].initialized
                && !role_can_edit(role) ==> result == Err::<(), PoolError>(PoolError::Unauthorized)
                && *final(self) == *old(self),
            reward_index < NUM_REWARDS && MIN_REWARD_DURATION <= reward_duration
                <= MAX_REWARD_DURATION && !old(self).reward_infos[reward_index as int].initialized
                && role_can_edit(role) ==> result == Ok::<(), PoolError>(()) && same_except_rewards(
                *old(self),
                *final(self),
            ) && final(self).reward_infos@ == old(self).reward_infos@.update(
                reward_index as int,
                RewardInfo {
                    initialized: true,
                    mint,
                    vault,
                    funder,
                    reward_duration,
                    reward_duration_end: 0,
                    reward_token_flag,
                },
            ),
    {
        if reward_index >= NUM_REWARDS {
            return Err(PoolError::InvalidRewardIndex);
        }
        if !(reward_duration >= MIN_REWARD_DURATION && reward_duration <= MAX_REWARD_DURATION) {
            return Err(PoolError::InvalidRewardDuration);
        }
        if self.reward_infos[reward_index].initialized {
            return Err(PoolError::RewardInitialized);
        }
        if matches!(role, Role::Unauthorized) {
            return Err(PoolError::Unauthorized);
        }
        self.reward_infos[reward_index] = RewardInfo {
            initialized: true,
            mint,
            vault,
            funder,
            reward_duration,
            reward_duration_end: 0,
            reward_token_flag,
        };
        Ok(())
    }

    /// Changes the campaign duration of an armed slot. The campaign must
    /// have fully elapsed (`reward_duration_end < current_time`), the new
    /// duration must be within bounds and differ from the current one, and
    /// the caller must hold an editing role. Returns the old and the new
    /// duration.
    pub fn update_reward_duration(
        &mut self,
        reward_index: usize,
        new_duration: u64,
        current_time: u64,
        role: Role,
    ) -> (result: Result<(u64, u64), PoolError>)
        requires
            old(self).reward_infos.len() == NUM_REWARDS,
        ensures
            ({
                let slot = old(self).reward_infos[reward_index as int];
                if reward_index >= NUM_REWARDS {
                    result == Err::<(u64, u64), PoolError>(PoolError::InvalidRewardIndex) && *final(self) == *old(self)
                } else if !(MIN_REWARD_DURATION <= new_duration <= MAX_REWARD_DURATION) {
                    result == Err::<(u64, u64), PoolError>(PoolError::InvalidRewardDuration)
                        && *final(self) == *old(self)
                } else if !slot.initialized {
                    result == Err::<(u64, u64), PoolError>(PoolError::RewardUninitialized)
                        && *final(self) == *old(self)
                } else if slot.reward_duration == new_duration {
                    result == Err::<(u64, u64), PoolError>(PoolError::IdenticalRewardDuration)
                        && *final(self) == *old(self)
                } else if slot.reward_duration_end >= current_time {
                    result == Err::<(u64, u64), PoolError>(PoolError::RewardCampaignInProgress)
                        && *final(self) == *old(self)
                } else if !role_can_edit(role) {
                    result == Err::<(u64, u64), PoolError>(PoolError::Unauthorized) && *final(self)
                        == *old(self)
                } else {
                    result == Ok::<(u64, u64), PoolError>((slot.reward_duration, new_duration))
                        && same_except_rewards(*old(self), *final(self)) && final(self).reward_infos@ == old(self).reward_infos@.update(
                        reward_index as int,
                        RewardInfo { reward_duration: new_duration, ..slot },
                    )
                }
            }),
    {
        if reward_index >= NUM_REWARDS {
            return Err(PoolError::InvalidRewardIndex);
        }
        if !(new_duration >= MIN_REWARD_DURATION && new_duration <= MAX_REWARD_DURATION) {
            return Err(PoolError::InvalidRewardDuration);
        }
        let slot = self.reward_infos[reward_index];
        if !slot.initialized {
            return Err(PoolError::RewardUninitialized);
        }
        if slot.reward_duration == new_duration {
            return Err(PoolError::IdenticalRewardDuration);
        }
        // only allow updating the duration once the previous campaign has
        // fully elapsed
        if slot.reward_duration_end >= current_time {
            return Err(PoolError::RewardCampaignInProgress);
        }
        if matches!(role, Role::Unauthorized) {
            return Err(PoolError::Unauthorized);
        }
        let old_duration = slot.reward_duration;
        self.reward_infos[reward_index] = RewardInfo { reward_duration: new_duration, ..slot };
        Ok((old_duration, new_duration))
    }

    /// Hands an armed slot to a new funder, which may happen while a
    /// campaign is running. The new funder must differ from the current one
    /// and the caller must hold an editing role. Returns the old and the new
    /// funder.
    pub fn update_reward_funder(
        &mut self,
        reward_index: usize,
        new_funder: u64,
        role: Role,
    ) -> (result: Result<(u64, u64), PoolError>)
        requires
            old(self).reward_infos.len() == NUM_REWARDS,
        ensures
            ({
                let slot = old(self).reward_infos[reward_index as int];
                if reward_index >= NUM_REWARDS {
                    result == Err::<(u64, u64), PoolError>(PoolError::InvalidRewardIndex) && *final(self) == *old(self)
                } else if !slot.initialized {
                    result == Err::<(u64, u64), PoolError>(PoolError::RewardUninitialized)
                        && *final(self) == *old(self)
                } else if slot.funder == new_funder {
                    result == Err::<(u64, u64), PoolError>(PoolError::IdenticalFunder) && *final(self) == *old(self)
                } else if !role_can_edit(role) {
                    result == Err::<(u64, u64), PoolError>(PoolError::Unauthorized) && *final(self)
                        == *old(self)
                } else {
                    result == Ok::<(u64, u64), PoolError>((slot.funder, new_funder))
                        && same_except_rewards(*old(self), *final(self)) && final(self).reward_infos@ == old(self).reward_infos@.update(
                        reward_index as int,
                        RewardInfo { funder: new_funder, ..slot },
                    )
                }
            }),
    {
        if reward_index >= NUM_REWARDS {
            return Err(PoolError::InvalidRewardIndex);
        }
        let slot = self.reward_infos[reward_index];
        if !slot.initialized {
            return Err(PoolError::RewardUninitialized);
        }
        if slot.funder == new_funder {
            return Err(PoolError::IdenticalFunder);
        }
        if matches!(role, Role::Unauthorized) {
            return Err(PoolError::Unauthorized);
        }
        let old_funder = slot.funder;
        self.reward_infos[reward_index] = RewardInfo { funder: new_funder, ..slot };
        Ok((old_funder, new_funder))
    }
}

/// The two pools agree on every field except possibly the reward slots.
pub open spec fn same_except_rewards(a: Pool, b: Pool) -> bool {
    &&& a.pool_fees == b.pool_fees
    &&& a.creator == b.creator
    &&& a.token_a_mint == b.token_a_mint
    &&& a.token_b_mint == b.token_b_mint
    &&& a.token_a_vault == b.token_a_vault
    &&& a.token_b_vault == b.token_b_vault
    &&& a.whitelisted_vault == b.whitelisted_vault
    &&& a.pool_creator_authority == b.pool_creator_authority
    &&& a.sqrt_min_price == b.sqrt_min_price
    &&& a.sqrt_max_price == b.sqrt_max_price
    &&& a.sqrt_price == b.sqrt_price
    &&& a.liquidity == b.liquidity
    &&& a.protocol_fee_a == b.protocol_fee_a
    &&& a.protocol_fee_b == b.protocol_fee_b
    &&& a.activation_point == b.activation_point
    &&& a.activation_type == b.activation_type
    &&& a.token_a_flag == b.token_a_flag
    &&& a.token_b_flag == b.token_b_flag
    &&& a.collect_fee_mode == b.collect_fee_mode
    &&& a.pool_type == b.pool_type
}

} // verus!
