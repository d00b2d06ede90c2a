//! The working copy of a guild's reward state for the length of one call.
//!
//! A call opens the cache once, lets the accrual and its own logic change the
//! copy, and commits it once at the end. A call that is rejected never commits,
//! so it leaves the guild and the factory as they were.

use vstd::prelude::*;
use crate::amount::Amount;
use crate::farm_staking::{FarmStaking, FarmStakingView, State};
use crate::guild_factory::{GuildFactory, GuildFactoryView};
use crate::guild_interactions::GuildInteractionsModule;
use crate::token_attributes::TokenIdentifier;

verus! {

pub struct StorageCache {
    pub contract_state: State,
    pub farm_token_id: Option<TokenIdentifier>,
    pub farming_token_id: TokenIdentifier,
    pub reward_token_id: TokenIdentifier,
    pub division_safety_constant: Amount,
    pub farm_token_supply: Amount,
    pub reward_reserve: Amount,
    pub user_rps: Amount,
    pub guild_master_rps: Amount,
    /// The capacity bookkeeping, which the accrual changes together with the
    /// reserve.
    pub accumulated_rewards: Amount,
    pub reward_capacity: Amount,
    pub last_reward_block_nonce: u64,
    /// What the factory granted during this call and has yet to pay out.
    pub requested_rewards: Amount,
}

pub struct StorageCacheView {
    pub contract_state: State,
    pub farm_token_id: Option<TokenIdentifier>,
    pub farming_token_id: TokenIdentifier,
    pub reward_token_id: TokenIdentifier,
    pub division_safety_constant: nat,
    pub farm_token_supply: nat,
    pub reward_reserve: nat,
    pub user_rps: nat,
    pub guild_master_rps: nat,
    pub accumulated_rewards: nat,
    pub reward_capacity: nat,
    pub last_reward_block_nonce: u64,
    pub requested_rewards: nat,
}

impl View for StorageCache {
    type V = StorageCacheView;

    open spec fn view(&self) -> StorageCacheView {
        StorageCacheView {
            contract_state: self.contract_state,
            farm_token_id: self.farm_token_id,
            farming_token_id: self.farming_token_id,
            reward_token_id: self.reward_token_id,
            division_safety_constant: self.division_safety_constant@,
            farm_token_supply: self.farm_token_supply@,
            reward_reserve: self.reward_reserve@,
            user_rps: self.user_rps@,
            guild_master_rps: self.guild_master_rps@,
            accumulated_rewards: self.accumulated_rewards@,
            reward_capacity: self.reward_capacity@,
            last_reward_block_nonce: self.last_reward_block_nonce,
            requested_rewards: self.requested_rewards@,
        }
    }
}

impl StorageCacheView {
    /// The cache as it is opened on `guild`.
    pub open spec fn of(guild: FarmStakingView) -> StorageCacheView {
        StorageCacheView {
            contract_state: guild.state,
            farm_token_id: guild.farm_token_id,
            farming_token_id: guild.farming_token_id,
            reward_token_id: guild.reward_token_id,
            division_safety_constant: guild.division_safety_constant,
            farm_token_supply: guild.farm_token_supply,
            reward_reserve: guild.reward_reserve,
            user_rps: guild.user_rps,
            guild_master_rps: guild.guild_master_rps,
            accumulated_rewards: guild.accumulated_rewards,
            reward_capacity: guild.reward_capacity,
            last_reward_block_nonce: guild.last_reward_block_nonce,
            requested_rewards: 0,
        }
    }

    /// The guild after the cache was committed to it.
    pub open spec fn committed_to(self, guild: FarmStakingView) -> FarmStakingView {
        FarmStakingView {
            farm_token_supply: self.farm_token_supply,
            reward_reserve: self.reward_reserve,
            user_rps: self.user_rps,
            guild_master_rps: self.guild_master_rps,
            accumulated_rewards: self.accumulated_rewards,
            reward_capacity: self.reward_capacity,
            last_reward_block_nonce: self.last_reward_block_nonce,
            ..guild
        }
    }

    /// The factory after it paid out what the cache was granted.
    pub open spec fn paid_by(self, factory: GuildFactoryView) -> GuildFactoryView {
        GuildFactoryView {
            remaining_rewards: (factory.remaining_rewards - self.requested_rewards) as nat,
            ..factory
        }
    }

    /// The accumulator that the positions of `user` are measured against.
    pub open spec fn rps_of(self, guild: FarmStakingView, user: u64) -> nat {
        if user != guild.guild_master {
            self.user_rps
        } else {
            self.guild_master_rps
        }
    }
}

impl StorageCache {
    /// Opens the cache: reads the guild once.
    pub fn new(sc_ref: &FarmStaking) -> (r: StorageCache)
        ensures
            r@ == StorageCacheView::of(sc_ref@),
    {
        StorageCache {
            contract_state: sc_ref.state,
            farm_token_id: sc_ref.farm_token_id,
            farming_token_id: sc_ref.farming_token_id,
            reward_token_id: sc_ref.reward_token_id,
            division_safety_constant: sc_ref.division_safety_constant.duplicate(),
            farm_token_supply: sc_ref.farm_token_supply.duplicate(),
            reward_reserve: sc_ref.reward_reserve.duplicate(),
            user_rps: sc_ref.user_rps.duplicate(),
            guild_master_rps: sc_ref.guild_master_rps.duplicate(),
            accumulated_rewards: sc_ref.accumulated_rewards.duplicate(),
            reward_capacity: sc_ref.reward_capacity.duplicate(),
            last_reward_block_nonce: sc_ref.last_reward_block_nonce,
            requested_rewards: Amount::zero(),
        }
    }

    /// Commits the cache: writes the guild once, whether or not anything
    /// changed, and has the factory pay out what it granted.
    pub fn commit(self, sc_ref: &mut FarmStaking, factory: &mut GuildFactory)
        requires
            self@.requested_rewards <= old(factory)@.remaining_rewards,
        ensures
            final(sc_ref)@ == self@.committed_to(old(sc_ref)@),
            final(factory)@ == self@.paid_by(old(factory)@),
    {
        factory.pay_out(&self.requested_rewards);
        sc_ref.reward_reserve = self.reward_reserve;
        sc_ref.user_rps = self.user_rps;
        sc_ref.guild_master_rps = self.guild_master_rps;
        sc_ref.farm_token_supply = self.farm_token_supply;
        sc_ref.accumulated_rewards = self.accumulated_rewards;
        sc_ref.reward_capacity = self.reward_capacity;
        sc_ref.last_reward_block_nonce = self.last_reward_block_nonce;
    }
}

} // verus!
