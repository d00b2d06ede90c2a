//! Compounding: the rewards that positions are owed are staked instead of
//! paid out.

use vstd::prelude::*;
use crate::call_config::CallConfigModule;
use crate::custom_rewards::CustomRewardsModule;
use crate::errors::GuildError;
use crate::farm_base::{
    amounts_sum, compounded_sum, lemma_compounded_sum_at_most_amounts, positions_view,
    BaseClaimRewardsModule, BaseFarmValidationModule,
};
use crate::farm_staking::{CloseGuildModule, FarmStaking, FarmStakingView};
use crate::guild_config::{is_guild_caller, GlobalConfigModule, GuildScConfig, GuildScConfigView};
use crate::guild_factory::{Address, GuildFactory, GuildFactoryView};
use crate::rewards::{FarmContract, FarmStakingWrapper, RewardsModule};
use crate::storage_cache::{StorageCache, StorageCacheView};
use crate::token_attributes::{
    EsdtTokenPayment, EsdtTokenPaymentView, StakingFarmToken, StakingFarmTokenAttributes,
    StakingFarmTokenAttributesView, StakingFarmTokenView,
};
use crate::tokens_per_tier::{TokensPerTier, TokensPerTierView};
use crate::total_tokens::TokenPerTierModule;

verus! {

impl FarmStakingView {
    /// Why compounding is rejected, if it is.
    pub open spec fn compound_error(
        self,
        config: GuildScConfigView,
        factory: GuildFactoryView,
        caller: Address,
        tokens: Seq<StakingFarmTokenView>,
        current_block_nonce: u64,
    ) -> Option<GuildError> {
        if self.claim_error(config, factory, caller, tokens, current_block_nonce) is Some {
            self.claim_error(config, factory, caller, tokens, current_block_nonce)
        } else if !is_guild_caller(factory, self.own_address) {
            Some(GuildError::OnlyGuilds)
        } else {
            None
        }
    }

    /// The guild after compounding: the accrual has happened, the rewards
    /// have moved from the reserve into the supply, and they count as
    /// compounded stake of the caller.
    pub open spec fn after_compound(
        self,
        config: GuildScConfigView,
        factory: GuildFactoryView,
        caller: Address,
        tokens: Seq<StakingFarmTokenView>,
        current_block_nonce: u64,
    ) -> FarmStakingView {
        let accrued = self.accrued(config.total_staking_token_staked, factory, current_block_nonce);
        let rewards = self.rewards_after_accrual(
            config,
            factory,
            caller,
            tokens,
            current_block_nonce,
        );
        let committed = (StorageCacheView {
            reward_reserve: (accrued.reward_reserve - rewards) as nat,
            farm_token_supply: accrued.farm_token_supply + rewards,
            ..accrued
        }).committed_to(self);
        (FarmStakingView {
            total_compounded_tokens: self.total_compounded_tokens + rewards,
            ..committed
        }).with_tokens_added(
            caller,
            TokensPerTierView { base: 0, compounded: rewards },
        ).with_config(config)
    }

    /// The position that compounding hands back: everything that was handed
    /// in and the rewards on top, with the checkpoint at the accumulator after
    /// the accrual.
    pub open spec fn compounded_position(
        self,
        config: GuildScConfigView,
        factory: GuildFactoryView,
        caller: Address,
        tokens: Seq<StakingFarmTokenView>,
        current_block_nonce: u64,
    ) -> StakingFarmTokenAttributesView {
        let accrued = self.accrued(config.total_staking_token_staked, factory, current_block_nonce);
        let rewards = self.rewards_after_accrual(
            config,
            factory,
            caller,
            tokens,
            current_block_nonce,
        );
        StakingFarmTokenAttributesView {
            reward_per_share: accrued.rps_of(self, caller),
            compounded_reward: compounded_sum(tokens, tokens.len() as int) + rewards,
            current_farm_amount: amounts_sum(tokens, tokens.len() as int) + rewards,
        }
    }
}

/// Compounding.
pub trait CompoundStakeFarmRewardsModule: View<V = FarmStakingView> {
    /// Stakes the rewards that the positions `payments` of `caller` are owed
    /// and hands the positions back as one.
    ///
    /// The rewards leave the reserve and come on top of the new position, as
    /// compounded stake. They are not held against the most that may be
    /// staked, and they are reported to the shared configuration.
    fn compound_rewards(
        &mut self,
        config: &mut GuildScConfig,
        factory: &mut GuildFactory,
        caller: Address,
        payments: &Vec<StakingFarmToken>,
        current_block_nonce: u64,
    ) -> (r: Result<StakingFarmToken, GuildError>)
        requires
            old(self)@.wf(),
        ensures
            final(self)@.wf(),
            match r {
                Ok(new_farm_token) => {
                    &&& old(self)@.compound_error(
                        old(config)@,
                        old(factory)@,
                        caller,
                        positions_view(payments@),
                        current_block_nonce,
                    ) is None
                    &&& final(self)@ == old(self)@.after_compound(
                        old(config)@,
                        old(factory)@,
                        caller,
                        positions_view(payments@),
                        current_block_nonce,
                    )
                    &&& final(config)@ == old(config)@.with_more_staked(
                        old(self)@.rewards_after_accrual(
                            old(config)@,
                            old(factory)@,
                            caller,
                            positions_view(payments@),
                            current_block_nonce,
                        ),
                    )
                    &&& final(factory)@ == old(self)@.factory_after_accrual(
                        old(config)@,
                        old(factory)@,
                        current_block_nonce,
                    )
                    &&& new_farm_token@.attributes == old(self)@.compounded_position(
                        old(config)@,
                        old(factory)@,
                        caller,
                        positions_view(payments@),
                        current_block_nonce,
                    )
                    &&& new_farm_token@.payment == (EsdtTokenPaymentView {
                        token_identifier: old(self)@.farm_token_id.unwrap(),
                        token_nonce: 0,
                        amount: new_farm_token@.attributes.current_farm_amount,
                    })
                    &&& new_farm_token@.attributes.wf()
                },
                Err(e) => {
                    &&& old(self)@.compound_error(
                        old(config)@,
                        old(factory)@,
                        caller,
                        positions_view(payments@),
                        current_block_nonce,
                    ) == Some(e)
                    &&& final(self)@ == old(self)@
                    &&& final(config)@ == old(config)@
                    &&& final(factory)@ == old(factory)@
                },
            },
    ;
}

impl CompoundStakeFarmRewardsModule for FarmStaking {
    fn compound_rewards(
        &mut self,
        config: &mut GuildScConfig,
        factory: &mut GuildFactory,
        caller: Address,
        payments: &Vec<StakingFarmToken>,
        current_block_nonce: u64,
    ) -> (r: Result<StakingFarmToken, GuildError>) {
        match self.require_not_closing() {
            Err(e) => {
                return Err(e);
            },
            Ok(()) => {},
        }
        match config.require_not_globally_paused() {
            Err(e) => {
                return Err(e);
            },
            Ok(()) => {},
        }
        if payments.len() == 0 {
            return Err(GuildError::EmptyPayments);
        }
        let mut storage_cache = StorageCache::new(self);
        let farm_token_id = match Self::validate_contract_state(&storage_cache) {
            Ok(farm_token_id) => farm_token_id,
            Err(e) => {
                return Err(e);
            },
        };
        if !Self::check_positions(payments, farm_token_id) {
            return Err(GuildError::BadPayments);
        }
        match FarmStakingWrapper::generate_aggregated_rewards(
            self,
            &mut storage_cache,
            config,
            factory,
            current_block_nonce,
        ) {
            Err(e) => {
                return Err(e);
            },
            Ok(()) => {},
        }
        let rewards = self.sum_rewards(caller, &storage_cache, payments);
        let new_reserve = match storage_cache.reward_reserve.checked_minus(&rewards) {
            Some(reserve) => reserve,
            None => {
                return Err(GuildError::NegativeResult);
            },
        };
        match config.require_guild_sc_caller(factory, self.own_address) {
            Err(e) => {
                return Err(e);
            },
            Ok(()) => {},
        }
        storage_cache.reward_reserve = new_reserve;
        storage_cache.farm_token_supply = storage_cache.farm_token_supply.plus(&rewards);

        let rps = self.get_rps_by_user(caller, &storage_cache).duplicate();
        let new_token_attributes = StakingFarmTokenAttributes {
            reward_per_share: rps,
            compounded_reward: Self::sum_compounded(payments, farm_token_id).plus(&rewards),
            current_farm_amount: Self::sum_amounts(payments).plus(&rewards),
        };
        proof {
            lemma_compounded_sum_at_most_amounts(
                positions_view(payments@),
                farm_token_id,
                payments@.len() as int,
            );
        }
        let new_farm_token = StakingFarmToken {
            payment: EsdtTokenPayment::new(
                farm_token_id,
                0,
                new_token_attributes.current_farm_amount.duplicate(),
            ),
            attributes: new_token_attributes,
        };
        let compounded = TokensPerTier::new_compounded(rewards.duplicate());

        storage_cache.commit(self, factory);
        self.update_all(config);
        self.add_total_staked_tokens_ignore_limit(&compounded);
        self.add_tokens(caller, &compounded);
        proof {
            assert(factory@.deployed_guilds == old(factory)@.deployed_guilds);
            assert(factory@.closed_guilds == old(factory)@.closed_guilds);
            assert(factory@.is_deployed(self.own_address) == old(factory)@.is_deployed(
                self.own_address,
            ));
        }
        self.call_increase_total_staked_tokens(config, factory, &rewards).unwrap();
        proof {
            assert(self@ =~= old(self)@.after_compound(
                old(config)@,
                old(factory)@,
                caller,
                positions_view(payments@),
                current_block_nonce,
            ));
        }
        Ok(new_farm_token)
    }
}

} // verus!
