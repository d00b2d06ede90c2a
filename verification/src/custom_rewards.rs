//! The capacity of a guild, the caps that its tiers set on an accrual, and the
//! copies that it keeps of the shared configuration.

use vstd::prelude::*;
use crate::amount::{Amount, MAX_NATIVE};
use crate::errors::GuildError;
use crate::farm_base::{all_positions_valid, merged_with, positions_view};
use crate::farm_staking::{FarmStaking, FarmStakingView};
use crate::guild_config::GuildScConfig;
use crate::guild_factory::{FactoryModule, GuildFactory};
use crate::guild_interactions::GuildInteractionsModule;
use crate::read_config::ReadConfigModule;
use crate::rewards::{
    first_guild_master_tier, first_user_tier, lemma_first_guild_master_tier, lemma_first_user_tier,
    spec_blocks_in_year, spec_bound_amount_by_apr, TierRates, TotalRewards, SECONDS_IN_YEAR,
};
use crate::storage_cache::{StorageCache, StorageCacheView};
use crate::tier_types::{
    guild_master_tiers_view, GuildMasterRewardTier, Percent, RewardTier, UserRewardTier,
    MAX_PERCENT,
};
use crate::token_attributes::{
    FixedSupplyToken, Mergeable, StakingFarmToken, StakingFarmTokenAttributes, TokenIdentifier,
};

verus! {

/// The capacity of a guild, the caps that its tiers set, and its copies of the
/// shared configuration.
pub trait CustomRewardsModule: View<V = FarmStakingView> {
    /// Asks the factory for `base_amount` of rewards and counts what it
    /// grants towards the capacity, in the cache of the call. The factory may
    /// grant less than was asked for, or nothing; it pays out when the cache
    /// is committed. A call asks once.
    fn request_rewards(
        &self,
        storage_cache: &mut StorageCache,
        factory: &GuildFactory,
        base_amount: &Amount,
    ) -> (r: Result<Amount, GuildError>)
        requires
            old(storage_cache)@.requested_rewards == 0,
        ensures
            !factory@.is_deployed(self@.own_address) ==> r is Err && r->Err_0
                == GuildError::UnknownGuild && final(storage_cache)@ == old(storage_cache)@,
            factory@.is_deployed(self@.own_address) ==> r is Ok && r->Ok_0@
                == factory@.rewards_for_request(base_amount@) && final(storage_cache)@ == (
            StorageCacheView {
                reward_capacity: old(storage_cache)@.reward_capacity + r->Ok_0@,
                requested_rewards: r->Ok_0@,
                ..old(storage_cache)@
            }),
    ;

    /// Takes the seconds per block from the shared configuration.
    fn update_internal_seconds_per_block(&mut self, config: &GuildScConfig)
        ensures
            final(self)@ == (FarmStakingView {
                internal_seconds_per_block: config@.seconds_per_block,
                ..old(self)@
            }),
    ;

    /// Takes the reward per block from the shared configuration.
    fn update_per_block_reward_amount(&mut self, config: &GuildScConfig)
        ensures
            final(self)@ == (FarmStakingView {
                per_block_reward_amount: config@.per_block_reward_amount,
                ..old(self)@
            }),
    ;

    /// Takes both tier tables from the shared configuration.
    fn update_internal_tiers(&mut self, config: &GuildScConfig)
        ensures
            final(self)@ == (FarmStakingView {
                internal_guild_master_tiers: config@.guild_master_tiers,
                internal_user_tiers: config@.user_tiers,
                ..old(self)@
            }),
    ;

    /// Takes the number of minted staking tokens from the shared
    /// configuration.
    fn update_internal_staking_token_minted(&mut self, config: &GuildScConfig)
        ensures
            final(self)@ == (FarmStakingView {
                internal_total_staking_token_minted: config@.total_staking_token_minted,
                ..old(self)@
            }),
    ;

    /// Brings every copy of the shared configuration up to date.
    fn update_all(&mut self, config: &GuildScConfig)
        ensures
            final(self)@ == old(self)@.with_config(config@),
    ;

    /// The rates of the guild master tier that `total_farming_tokens` falls
    /// into.
    fn find_guild_master_tier_apr(&self, total_farming_tokens: &Amount) -> (r: Result<
        TierRates,
        GuildError,
    >)
        ensures
            match first_guild_master_tier(
                self@.internal_guild_master_tiers,
                total_farming_tokens@,
                0,
            ) {
                Some(index) => r == Ok::<TierRates, GuildError>(
                    TierRates {
                        apr: self@.internal_guild_master_tiers[index].apr,
                        compounded_apr: self@.internal_guild_master_tiers[index].compounded_apr,
                    },
                ),
                None => r == Err::<TierRates, GuildError>(GuildError::TierNotFound),
            },
    ;

    /// The rates of the user tier that `percentage_staked` falls into.
    fn find_user_tier_apr(&self, percentage_staked: Percent) -> (r: Result<
        TierRates,
        GuildError,
    >)
        ensures
            match first_user_tier(self@.internal_user_tiers, percentage_staked, 0) {
                Some(index) => r == Ok::<TierRates, GuildError>(
                    TierRates {
                        apr: self@.internal_user_tiers[index].apr,
                        compounded_apr: self@.internal_user_tiers[index].compounded_apr,
                    },
                ),
                None => r == Err::<TierRates, GuildError>(GuildError::TierNotFound),
            },
    ;

    /// What `amount` may earn in one block at the yearly rate `apr`. There is
    /// no such bound where a block takes no time, or more than a year.
    fn bound_amount_by_apr(&self, amount: &Amount, apr: Percent) -> (r: Result<
        Amount,
        GuildError,
    >)
        ensures
            spec_blocks_in_year(self@.internal_seconds_per_block) == 0 ==> r is Err && r->Err_0
                == GuildError::DivisionByZero,
            spec_blocks_in_year(self@.internal_seconds_per_block) > 0 ==> r is Ok && r->Ok_0@
                == spec_bound_amount_by_apr(
                amount@,
                apr,
                spec_blocks_in_year(self@.internal_seconds_per_block),
            ),
    ;

    /// The share of all minted staking tokens that is staked over all guilds,
    /// in hundredths of a percent.
    fn get_total_staked_percent(&self, config: &GuildScConfig) -> (r: Result<
        Percent,
        GuildError,
    >)
        ensures
            self@.internal_total_staking_token_minted == 0 ==> r == Err::<Percent, GuildError>(
                GuildError::DivisionByZero,
            ),
            self@.internal_total_staking_token_minted > 0 && self@.staked_percent(
                config@.total_staking_token_staked,
            ) > MAX_NATIVE ==> r == Err::<Percent, GuildError>(GuildError::MathFailure),
            self@.internal_total_staking_token_minted > 0 && self@.staked_percent(
                config@.total_staking_token_staked,
            ) <= MAX_NATIVE ==> r == Ok::<Percent, GuildError>(
                self@.staked_percent(config@.total_staking_token_staked) as Percent,
            ),
    ;

    /// What the tiers allow each pool to earn in one block: the guild
    /// master's tier is found by what is staked in the guild, the users' tier
    /// by the share of all minted tokens that is staked anywhere.
    fn get_amount_apr_bounded(&self, config: &GuildScConfig) -> (r: Result<
        TotalRewards,
        GuildError,
    >)
        requires
            self@.wf(),
        ensures
            match r {
                Ok(bounded) => self@.apr_bound_error(config@.total_staking_token_staked) is None
                    && bounded@ == self@.amount_apr_bounded(config@.total_staking_token_staked),
                Err(e) => self@.apr_bound_error(config@.total_staking_token_staked) == Some(e),
            },
    ;

    /// Takes `withdraw_amount` out of the capacity. No more can be taken than
    /// the guild has not yet accrued.
    fn withdraw_rewards_common(&mut self, withdraw_amount: &Amount) -> (r: Result<
        (),
        GuildError,
    >)
        requires
            old(self)@.wf(),
        ensures
            final(self)@.wf(),
            withdraw_amount@ > old(self)@.remaining_capacity() ==> r == Err::<(), GuildError>(
                GuildError::WithdrawTooHigh,
            ) && final(self)@ == old(self)@,
            withdraw_amount@ <= old(self)@.remaining_capacity() ==> r == Ok::<(), GuildError>(())
                && final(self)@ == (FarmStakingView {
                reward_capacity: (old(self)@.reward_capacity - withdraw_amount@) as nat,
                ..old(self)@
            }),
    ;

    /// Merges the positions from `from` on into `base_attributes`, each by the
    /// part of it that was handed in.
    fn merge_attributes_from_payments(
        base_attributes: StakingFarmTokenAttributes,
        tokens: &Vec<StakingFarmToken>,
        from: usize,
        farm_token_id: TokenIdentifier,
    ) -> (r: StakingFarmTokenAttributes)
        requires
            all_positions_valid(positions_view(tokens@), farm_token_id),
            from <= tokens@.len(),
        ensures
            r@ == merged_with(
                base_attributes@,
                positions_view(tokens@),
                from as int,
                tokens@.len() as int,
            ),
    ;
}

impl CustomRewardsModule for FarmStaking {
    fn request_rewards(
        &self,
        storage_cache: &mut StorageCache,
        factory: &GuildFactory,
        base_amount: &Amount,
    ) -> (r: Result<Amount, GuildError>) {
        match factory.require_known_guild(self.own_address) {
            Err(e) => {
                return Err(e);
            },
            Ok(()) => {},
        }
        let received_rewards = factory.rewards_for_request(base_amount);
        storage_cache.reward_capacity = storage_cache.reward_capacity.plus(&received_rewards);
        storage_cache.requested_rewards = received_rewards.duplicate();
        Ok(received_rewards)
    }

    fn update_internal_seconds_per_block(&mut self, config: &GuildScConfig) {
        self.internal_seconds_per_block = config.seconds_per_block;
    }

    fn update_per_block_reward_amount(&mut self, config: &GuildScConfig) {
        self.per_block_reward_amount = config.per_block_reward_amount.duplicate();
    }

    fn update_internal_tiers(&mut self, config: &GuildScConfig) {
        let mut guild_master_tiers: Vec<GuildMasterRewardTier> = Vec::new();
        let mut i: usize = 0;
        while i < config.guild_master_tiers.len()
            invariant
                i <= config.guild_master_tiers.len(),
                guild_master_tiers@.len() == i,
                forall|j: int|
                    0 <= j < i ==> (#[trigger] guild_master_tiers@[j])@
                        == config.guild_master_tiers@[j]@,
            decreases config.guild_master_tiers.len() - i,
        {
            guild_master_tiers.push(config.guild_master_tiers[i].duplicate());
            i += 1;
        }
        let mut user_tiers: Vec<UserRewardTier> = Vec::new();
        let mut k: usize = 0;
        while k < config.user_tiers.len()
            invariant
                k <= config.user_tiers.len(),
                user_tiers@ == config.user_tiers@.subrange(0, k as int),
            decreases config.user_tiers.len() - k,
        {
            user_tiers.push(config.user_tiers[k]);
            proof {
                assert(user_tiers@ =~= config.user_tiers@.subrange(0, k + 1));
            }
            k += 1;
        }
        proof {
            assert(user_tiers@ =~= config.user_tiers@);
            assert(guild_master_tiers_view(guild_master_tiers@) =~= config@.guild_master_tiers);
        }
        self.internal_guild_master_tiers = guild_master_tiers;
        self.internal_user_tiers = user_tiers;
    }

    fn update_internal_staking_token_minted(&mut self, config: &GuildScConfig) {
        self.internal_total_staking_token_minted = config.total_staking_token_minted.duplicate();
    }

    fn update_all(&mut self, config: &GuildScConfig) {
        self.update_internal_seconds_per_block(config);
        self.update_per_block_reward_amount(config);
        self.update_internal_tiers(config);
        self.update_internal_staking_token_minted(config);
    }

    fn find_guild_master_tier_apr(&self, total_farming_tokens: &Amount) -> (r: Result<
        TierRates,
        GuildError,
    >) {
        let found = self.find_tier_common(
            total_farming_tokens,
            0,
            &self.internal_guild_master_tiers,
        );
        proof {
            let tiers = self.internal_guild_master_tiers@;
            let stake = total_farming_tokens@;
            match found {
                Some(index) => {
                    lemma_first_guild_master_tier(tiers, stake, 0, Some(index as int));
                    assert(guild_master_tiers_view(tiers)[index as int] == tiers[index as int]@);
                },
                None => {
                    lemma_first_guild_master_tier(tiers, stake, 0, None);
                },
            }
        }
        match found {
            Some(index) => {
                let tier = &self.internal_guild_master_tiers[index];
                Ok(TierRates { apr: tier.get_apr(), compounded_apr: tier.get_compounded_apr() })
            },
            None => Err(GuildError::TierNotFound),
        }
    }

    fn find_user_tier_apr(&self, percentage_staked: Percent) -> (r: Result<
        TierRates,
        GuildError,
    >) {
        let zero = Amount::zero();
        let found = self.find_tier_common(&zero, percentage_staked, &self.internal_user_tiers);
        proof {
            let tiers = self.internal_user_tiers@;
            match found {
                Some(index) => {
                    lemma_first_user_tier(tiers, percentage_staked, 0, Some(index as int));
                },
                None => {
                    lemma_first_user_tier(tiers, percentage_staked, 0, None);
                },
            }
        }
        match found {
            Some(index) => {
                let tier = &self.internal_user_tiers[index];
                Ok(TierRates { apr: tier.get_apr(), compounded_apr: tier.get_compounded_apr() })
            },
            None => Err(GuildError::TierNotFound),
        }
    }

    fn bound_amount_by_apr(&self, amount: &Amount, apr: Percent) -> (r: Result<
        Amount,
        GuildError,
    >) {
        let seconds_per_block = self.internal_seconds_per_block;
        if seconds_per_block == 0 {
            return Err(GuildError::DivisionByZero);
        }
        let blocks_in_year = SECONDS_IN_YEAR / seconds_per_block;
        if blocks_in_year == 0 {
            return Err(GuildError::DivisionByZero);
        }
        let scaled = amount.times(&Amount::from_u64(apr));
        let yearly = scaled.divided_by(&Amount::from_u64(MAX_PERCENT));
        Ok(yearly.divided_by(&Amount::from_u64(blocks_in_year)))
    }

    fn get_total_staked_percent(&self, config: &GuildScConfig) -> (r: Result<
        Percent,
        GuildError,
    >) {
        if self.internal_total_staking_token_minted.is_zero() {
            return Err(GuildError::DivisionByZero);
        }
        let scaled = config.total_staking_token_staked.times(&Amount::from_u64(MAX_PERCENT));
        let percent = scaled.divided_by(&self.internal_total_staking_token_minted);
        match percent.to_u64() {
            Some(value) => Ok(value),
            None => Err(GuildError::MathFailure),
        }
    }

    fn get_amount_apr_bounded(&self, config: &GuildScConfig) -> (r: Result<
        TotalRewards,
        GuildError,
    >) {
        let mut total_guild_master = Amount::zero();
        let (guild_master_base, guild_master_compounded) = match &self.guild_master_tokens {
            Some(guild_master_tokens) => {
                let rates = match self.find_guild_master_tier_apr(&self.total_base_staked_tokens) {
                    Ok(rates) => rates,
                    Err(e) => {
                        return Err(e);
                    },
                };
                let base_bounded = match self.bound_amount_by_apr(
                    &guild_master_tokens.base,
                    rates.apr,
                ) {
                    Ok(bounded) => bounded,
                    Err(e) => {
                        return Err(e);
                    },
                };
                let compounded_bounded = match self.bound_amount_by_apr(
                    &guild_master_tokens.compounded,
                    rates.compounded_apr,
                ) {
                    Ok(bounded) => bounded,
                    Err(e) => {
                        return Err(e);
                    },
                };
                total_guild_master = base_bounded.plus(&compounded_bounded);
                (guild_master_tokens.base.duplicate(), guild_master_tokens.compounded.duplicate())
            },
            None => (Amount::zero(), Amount::zero()),
        };
        let total_user_base_tokens = self.total_base_staked_tokens.minus(&guild_master_base);
        let total_user_compounded = self.total_compounded_tokens.minus(&guild_master_compounded);
        if self.internal_seconds_per_block == 0 || SECONDS_IN_YEAR / self.internal_seconds_per_block
            == 0 {
            return Err(GuildError::DivisionByZero);
        }
        let staked_percent = match self.get_total_staked_percent(config) {
            Ok(percent) => percent,
            Err(e) => {
                return Err(e);
            },
        };
        let user_rates = match self.find_user_tier_apr(staked_percent) {
            Ok(rates) => rates,
            Err(e) => {
                return Err(e);
            },
        };
        let base_bounded = match self.bound_amount_by_apr(&total_user_base_tokens, user_rates.apr) {
            Ok(bounded) => bounded,
            Err(e) => {
                return Err(e);
            },
        };
        let compounded_bounded = match self.bound_amount_by_apr(
            &total_user_compounded,
            user_rates.compounded_apr,
        ) {
            Ok(bounded) => bounded,
            Err(e) => {
                return Err(e);
            },
        };
        let total_users = base_bounded.plus(&compounded_bounded);
        Ok(TotalRewards { guild_master: total_guild_master, users: total_users })
    }

    fn withdraw_rewards_common(&mut self, withdraw_amount: &Amount) -> (r: Result<
        (),
        GuildError,
    >) {
        if withdraw_amount.is_zero() {
            return Ok(());
        }
        let remaining_rewards = self.reward_capacity.minus(&self.accumulated_rewards);
        if remaining_rewards.less_than(withdraw_amount) {
            return Err(GuildError::WithdrawTooHigh);
        }
        self.reward_capacity = self.reward_capacity.minus(withdraw_amount);
        Ok(())
    }

    fn merge_attributes_from_payments(
        base_attributes: StakingFarmTokenAttributes,
        tokens: &Vec<StakingFarmToken>,
        from: usize,
        farm_token_id: TokenIdentifier,
    ) -> (r: StakingFarmTokenAttributes) {
        let mut merged = base_attributes;
        let mut i: usize = from;
        while i < tokens.len()
            invariant
                from <= i <= tokens.len(),
                all_positions_valid(positions_view(tokens@), farm_token_id),
                merged@ == merged_with(
                    base_attributes@,
                    positions_view(tokens@),
                    from as int,
                    i as int,
                ),
            decreases tokens.len() - i,
        {
            assert(positions_view(tokens@)[i as int] == tokens@[i as int]@);
            assert(positions_view(tokens@)[i as int].wf());
            let part = tokens[i].attributes.duplicate().into_part(&tokens[i].payment.amount);
            merged.merge_with(part);
            i += 1;
        }
        merged
    }
}

} // verus!
