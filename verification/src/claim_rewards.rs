//! Claiming: the rewards that positions are owed are paid out, and the
//! positions come back as one whose checkpoint is the accumulator of now.

use vstd::prelude::*;
use crate::custom_rewards::CustomRewardsModule;
use crate::errors::GuildError;
use crate::farm_base::{
    all_positions_valid, amounts_sum, compounded_sum, contract_state_error,
    lemma_compounded_sum_at_most_amounts, owed_rewards, positions_view, BaseClaimRewardsModule,
    BaseFarmValidationModule,
};
use crate::farm_staking::{CloseGuildModule, FarmStaking, FarmStakingView};
use crate::guild_config::{GlobalConfigModule, GuildScConfig, GuildScConfigView, UNPAUSED};
use crate::guild_factory::{Address, GuildFactory, GuildFactoryView};
use crate::rewards::{FarmContract, FarmStakingWrapper, RewardsModule};
use crate::storage_cache::{StorageCache, StorageCacheView};
use crate::token_attributes::{
    EsdtTokenPayment, EsdtTokenPaymentView, StakingFarmToken, StakingFarmTokenAttributes,
    StakingFarmTokenAttributesView, StakingFarmTokenView,
};

verus! {

/// What a claim hands back: the new position, and the rewards.
pub struct ClaimRewardsResult {
    pub new_farm_token: StakingFarmToken,
    pub rewards: EsdtTokenPayment,
}

pub struct ClaimRewardsResultView {
    pub new_farm_token: StakingFarmTokenView,
    pub rewards: EsdtTokenPaymentView,
}

impl View for ClaimRewardsResult {
    type V = ClaimRewardsResultView;

    open spec fn view(&self) -> ClaimRewardsResultView {
        ClaimRewardsResultView { new_farm_token: self.new_farm_token@, rewards: self.rewards@ }
    }
}

impl FarmStakingView {
    /// What the positions `tokens` of `caller` are owed after the accrual at
    /// `current_block_nonce`.
    pub open spec fn rewards_after_accrual(
        self,
        config: GuildScConfigView,
        factory: GuildFactoryView,
        caller: Address,
        tokens: Seq<StakingFarmTokenView>,
        current_block_nonce: u64,
    ) -> nat {
        let accrued = self.accrued(config.total_staking_token_staked, factory, current_block_nonce);
        owed_rewards(
            tokens,
            accrued.rps_of(self, caller),
            self.division_safety_constant,
            tokens.len() as int,
        )
    }

    /// Why a call on the positions `tokens` is rejected before anything is
    /// computed from them, if it is.
    pub open spec fn positions_error(self,
        tokens: Seq<StakingFarmTokenView>) -> Option<GuildError> {
        if tokens.len() == 0 {
            Some(GuildError::EmptyPayments)
        } else if contract_state_error(StorageCacheView::of(self)) is Some {
            contract_state_error(StorageCacheView::of(self))
        } else if !all_positions_valid(tokens, self.farm_token_id.unwrap()) {
            Some(GuildError::BadPayments)
        } else {
            None
        }
    }

    /// Why a claim is rejected, if it is.
    pub open spec fn claim_error(
        self,
        config: GuildScConfigView,
        factory: GuildFactoryView,
        caller: Address,
        tokens: Seq<StakingFarmTokenView>,
        current_block_nonce: u64,
    ) -> Option<GuildError> {
        let accrued = self.accrued(config.total_staking_token_staked, factory, current_block_nonce);
        if self.guild_closing {
            Some(GuildError::GuildClosing)
        } else if config.global_pause_status != UNPAUSED {
            Some(GuildError::GloballyPaused)
        } else if self.positions_error(tokens) is Some {
            self.positions_error(tokens)
        } else if self.accrual_error(
            config.total_staking_token_staked,
            factory,
            current_block_nonce,
        ) is Some {
            self.accrual_error(config.total_staking_token_staked, factory, current_block_nonce)
        } else if self.rewards_after_accrual(config, factory, caller, tokens, current_block_nonce)
            > accrued.reward_reserve {
            Some(GuildError::NegativeResult)
        } else {
            None
        }
    }

    /// The guild after a claim: the accrual has happened, and the reserve has
    /// paid the rewards.
    pub open spec fn after_claim(
        self,
        config: GuildScConfigView,
        factory: GuildFactoryView,
        caller: Address,
        tokens: Seq<StakingFarmTokenView>,
        current_block_nonce: u64,
    ) -> FarmStakingView {
        let accrued = self.accrued(config.total_staking_token_staked, factory, current_block_nonce);
        let rewards = self.rewards_after_accrual(
            config,
            factory,
            caller,
            tokens,
            current_block_nonce,
        );
        (StorageCacheView {
            reward_reserve: (accrued.reward_reserve - rewards) as nat,
            ..accrued
        }).committed_to(self).with_config(config)
    }

    /// The factory after a call of the guild that accrued at
    /// `current_block_nonce`.
    pub open spec fn factory_after_accrual(
        self,
        config: GuildScConfigView,
        factory: GuildFactoryView,
        current_block_nonce: u64,
    ) -> GuildFactoryView {
        self.accrued(config.total_staking_token_staked, factory, current_block_nonce).paid_by(
            factory,
        )
    }

    /// The position that a claim hands back: everything that was handed in,
    /// with the checkpoint at the accumulator after the accrual.
    pub open spec fn claimed_position(
        self,
        config: GuildScConfigView,
        factory: GuildFactoryView,
        caller: Address,
        tokens: Seq<StakingFarmTokenView>,
        current_block_nonce: u64,
    ) -> StakingFarmTokenAttributesView {
        let accrued = self.accrued(config.total_staking_token_staked, factory, current_block_nonce);
        StakingFarmTokenAttributesView {
            reward_per_share: accrued.rps_of(self, caller),
            compounded_reward: compounded_sum(tokens, tokens.len() as int),
            current_farm_amount: amounts_sum(tokens, tokens.len() as int),
        }
    }
}

/// Claiming.
pub trait ClaimStakeFarmRewardsModule: View<V = FarmStakingView> {
    /// Pays `caller` the rewards that the positions `payments` are owed and
    /// hands the positions back as one.
    ///
    /// The new position holds what the old ones held, by the parts that were
    /// handed in, and its checkpoint is the accumulator after the accrual of
    /// this call. The reserve pays the rewards. Nothing is staked or unstaked.
    fn claim_rewards(
        &mut self,
        config: &GuildScConfig,
        factory: &mut GuildFactory,
        caller: Address,
        payments: &Vec<StakingFarmToken>,
        current_block_nonce: u64,
    ) -> (r: Result<ClaimRewardsResult, GuildError>)
        requires
            old(self)@.wf(),
        ensures
            final(self)@.wf(),
            match r {
                Ok(result) => {
                    &&& old(self)@.claim_error(
                        config@,
                        old(factory)@,
                        caller,
                        positions_view(payments@),
                        current_block_nonce,
                    ) is None
                    &&& final(self)@ == old(self)@.after_claim(
                        config@,
                        old(factory)@,
                        caller,
                        positions_view(payments@),
                        current_block_nonce,
                    )
                    &&& final(factory)@ == old(self)@.factory_after_accrual(
                        config@,
                        old(factory)@,
                        current_block_nonce,
                    )
                    &&& result@.rewards == (EsdtTokenPaymentView {
                        token_identifier: old(self)@.reward_token_id,
                        token_nonce: 0,
                        amount: old(self)@.rewards_after_accrual(
                            config@,
                            old(factory)@,
                            caller,
                            positions_view(payments@),
                            current_block_nonce,
                        ),
                    })
                    &&& result@.new_farm_token.attributes == old(self)@.claimed_position(
                        config@,
                        old(factory)@,
                        caller,
                        positions_view(payments@),
                        current_block_nonce,
                    )
                    &&& result@.new_farm_token.payment == (EsdtTokenPaymentView {
                        token_identifier: old(self)@.farm_token_id.unwrap(),
                        token_nonce: 0,
                        amount: amounts_sum(positions_view(payments@), payments@.len() as int),
                    })
                    &&& result@.new_farm_token.attributes.wf()
                },
                Err(e) => {
                    &&& old(self)@.claim_error(
                        config@,
                        old(factory)@,
                        caller,
                        positions_view(payments@),
                        current_block_nonce,
                    ) == Some(e)
                    &&& final(self)@ == old(self)@
                    &&& final(factory)@ == old(factory)@
                },
            },
    ;
}

impl ClaimStakeFarmRewardsModule for FarmStaking {
    fn claim_rewards(
        &mut self,
        config: &GuildScConfig,
        factory: &mut GuildFactory,
        caller: Address,
        payments: &Vec<StakingFarmToken>,
        current_block_nonce: u64,
    ) -> (r: Result<ClaimRewardsResult, GuildError>) {
        match self.require_not_closing() {
            Err(e) => {
                return Err(e);
            },
            Ok(()) => {},
        }
        match config.require_not_globally_paused() {
            Err(e) => {
                return Err(e);
            },
            Ok(()) => {},
        }
        if payments.len() == 0 {
            return Err(GuildError::EmptyPayments);
        }
        let mut storage_cache = StorageCache::new(self);
        let farm_token_id = match Self::validate_contract_state(&storage_cache) {
            Ok(farm_token_id) => farm_token_id,
            Err(e) => {
                return Err(e);
            },
        };
        if !Self::check_positions(payments, farm_token_id) {
            return Err(GuildError::BadPayments);
        }
        match FarmStakingWrapper::generate_aggregated_rewards(
            self,
            &mut storage_cache,
            config,
            factory,
            current_block_nonce,
        ) {
            Err(e) => {
                return Err(e);
            },
            Ok(()) => {},
        }
        let total_rewards = self.sum_rewards(caller, &storage_cache, payments);
        let new_reserve = match storage_cache.reward_reserve.checked_minus(&total_rewards) {
            Some(reserve) => reserve,
            None => {
                return Err(GuildError::NegativeResult);
            },
        };
        storage_cache.reward_reserve = new_reserve;

        let rps = self.get_rps_by_user(caller, &storage_cache).duplicate();
        let total_amount = Self::sum_amounts(payments);
        let new_token_attributes = StakingFarmTokenAttributes {
            reward_per_share: rps,
            compounded_reward: Self::sum_compounded(payments, farm_token_id),
            current_farm_amount: total_amount.duplicate(),
        };
        proof {
            lemma_compounded_sum_at_most_amounts(
                positions_view(payments@),
                farm_token_id,
                payments@.len() as int,
            );
        }
        let new_farm_token = StakingFarmToken {
            payment: EsdtTokenPayment::new(farm_token_id, 0, total_amount),
            attributes: new_token_attributes,
        };
        let rewards = EsdtTokenPayment::new(storage_cache.reward_token_id, 0, total_rewards);

        storage_cache.commit(self, factory);
        self.update_all(config);
        Ok(ClaimRewardsResult { new_farm_token, rewards })
    }
}

} // verus!
