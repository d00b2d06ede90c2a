//! Unbonding positions: redeemed for the staking tokens once they have
//! unlocked, or turned back into a staking position.

use vstd::prelude::*;
use crate::amount::Amount;
use crate::call_config::CallConfigModule;
use crate::custom_rewards::CustomRewardsModule;
use crate::errors::GuildError;
use crate::farm_base::{contract_state_error, BaseFarmValidationModule};
use crate::farm_staking::{CloseGuildModule, FarmStaking, FarmStakingView};
use crate::guild_config::{
    is_guild_caller, Epoch, GlobalConfigModule, GuildScConfig, GuildScConfigView,
};
use crate::guild_factory::{Address, GuildFactory, GuildFactoryView};
use crate::rewards::{FarmContract, FarmStakingWrapper, RewardsModule};
use crate::storage_cache::{StorageCache, StorageCacheView};
use crate::token_attributes::{
    lemma_part_is_well_formed, EsdtTokenPayment, EsdtTokenPaymentView, FixedSupplyToken,
    StakingFarmToken, StakingFarmTokenAttributesView, TokenIdentifier, UnbondSftAttributes,
    UnbondSftAttributesView,
};
use crate::tokens_per_tier::{TokensPerTier, TokensPerTierView};
use crate::total_tokens::TokenPerTierModule;

verus! {

/// An unbonding token as it is handed in: how much of it, and what it carries.
pub struct UnbondFarmToken {
    pub payment: EsdtTokenPayment,
    pub attributes: UnbondSftAttributes,
}

pub struct UnbondFarmTokenView {
    pub payment: EsdtTokenPaymentView,
    pub attributes: UnbondSftAttributesView,
}

impl View for UnbondFarmToken {
    type V = UnbondFarmTokenView;

    open spec fn view(&self) -> UnbondFarmTokenView {
        UnbondFarmTokenView { payment: self.payment@, attributes: self.attributes@ }
    }
}

impl UnbondFarmTokenView {
    /// No more of the token is handed in than it locks, an empty one is not
    /// handed in, and what it carries is well formed.
    pub open spec fn wf(self) -> bool {
        &&& self.attributes.wf()
        &&& 0 < self.payment.amount <= self.attributes.supply
    }

    /// Why the token cannot be redeemed at `current_epoch`, if it cannot.
    pub open spec fn unbond_error(self, unbond_token_id: TokenIdentifier, current_epoch: Epoch)
        -> Option<GuildError> {
        if self.payment.token_identifier != unbond_token_id {
            Some(GuildError::InvalidToken)
        } else if current_epoch < self.attributes.unlock_epoch {
            Some(GuildError::UnbondPeriodNotOver)
        } else {
            None
        }
    }
}

impl UnbondFarmToken {
    pub fn is_well_formed(&self) -> (r: bool)
        ensures
            r == self@.wf(),
    {
        self.attributes.is_well_formed() && !self.payment.amount.is_zero()
            && self.payment.amount.at_most(&self.attributes.supply)
    }
}

/// The views of a list of unbonding tokens, in order.
pub open spec fn unbond_tokens_view(tokens: Seq<UnbondFarmToken>) -> Seq<UnbondFarmTokenView> {
    Seq::new(tokens.len(), |i: int| tokens[i]@)
}

/// What the first `count` unbonding tokens hold together.
pub open spec fn unbond_amounts_sum(tokens: Seq<UnbondFarmTokenView>, count: int) -> nat
    decreases count,
{
    if count <= 0 {
        0
    } else {
        unbond_amounts_sum(tokens, count - 1) + tokens[count - 1].payment.amount
    }
}

impl FarmStakingView {
    /// Why an unbonding position cannot be cancelled, if it cannot.
    pub open spec fn cancel_unbond_error(
        self,
        config: GuildScConfigView,
        factory: GuildFactoryView,
        caller: Address,
        token: UnbondFarmTokenView,
        current_block_nonce: u64,
    ) -> Option<GuildError> {
        if self.guild_closing {
            Some(GuildError::GuildClosing)
        } else if self.unbond_token_id != Some(token.payment.token_identifier) {
            Some(GuildError::InvalidToken)
        } else if !token.wf() {
            Some(GuildError::BadPayments)
        } else if token.attributes.opt_original_attributes is None {
            Some(GuildError::CannotCancelUnbond)
        } else if contract_state_error(StorageCacheView::of(self)) is Some {
            contract_state_error(StorageCacheView::of(self))
        } else if self.accrual_error(
            config.total_staking_token_staked,
            factory,
            current_block_nonce,
        ) is Some {
            self.accrual_error(config.total_staking_token_staked, factory, current_block_nonce)
        } else if self.total_staked_tokens() + token.payment.amount > config.max_staked_tokens {
            Some(GuildError::MaxStakedExceeded)
        } else if !is_guild_caller(factory, self.own_address) {
            Some(GuildError::OnlyGuilds)
        } else {
            None
        }
    }

    /// The position that a cancelled unbonding turns into: what was locked,
    /// with the compounded part that the position it came from had, and the
    /// checkpoint at the accumulator after the accrual.
    pub open spec fn restaked_position(
        self,
        config: GuildScConfigView,
        factory: GuildFactoryView,
        caller: Address,
        token: UnbondFarmTokenView,
        current_block_nonce: u64,
    ) -> StakingFarmTokenAttributesView {
        let accrued = self.accrued(config.total_staking_token_staked, factory, current_block_nonce);
        let original = token.attributes.opt_original_attributes.unwrap().part(token.payment.amount);
        StakingFarmTokenAttributesView {
            reward_per_share: accrued.rps_of(self, caller),
            compounded_reward: original.compounded_reward,
            current_farm_amount: token.payment.amount,
        }
    }

    /// The guild after an unbonding was cancelled: the accrual has happened,
    /// and what was locked is staked again, in the two parts that it had.
    pub open spec fn after_cancel_unbond(
        self,
        config: GuildScConfigView,
        factory: GuildFactoryView,
        caller: Address,
        token: UnbondFarmTokenView,
        current_block_nonce: u64,
    ) -> FarmStakingView {
        let accrued = self.accrued(config.total_staking_token_staked, factory, current_block_nonce);
        let position = self.restaked_position(config, factory, caller, token, current_block_nonce);
        let restaked = TokensPerTierView {
            base: (position.current_farm_amount - position.compounded_reward) as nat,
            compounded: position.compounded_reward,
        };
        let committed = (StorageCacheView {
            farm_token_supply: accrued.farm_token_supply + token.payment.amount,
            ..accrued
        }).committed_to(self);
        (FarmStakingView {
            total_base_staked_tokens: self.total_base_staked_tokens + restaked.base,
            total_compounded_tokens: self.total_compounded_tokens + restaked.compounded,
            ..committed
        }).with_tokens_added(caller, restaked).with_config(config)
    }
}

/// Redeeming and cancelling unbonding positions.
pub trait UnbondFarmModule: View<V = FarmStakingView> {
    /// Redeems unbonding positions for the staking tokens that they lock, one
    /// for one. Each must be of the guild's unbonding token and have
    /// unlocked. Where one is not, the error is that of the first such.
    fn unbond_farm(&self, payments: &Vec<UnbondFarmToken>, current_epoch: Epoch) -> (r: Result<
        EsdtTokenPayment,
        GuildError,
    >)
        ensures
            contract_state_error(StorageCacheView::of(self@)) is Some ==> r is Err && Some(
                r->Err_0,
            ) == contract_state_error(StorageCacheView::of(self@)),
            contract_state_error(StorageCacheView::of(self@)) is None && (self@.unbond_token_id
                is None || payments@.len() == 0) ==> r is Err && r->Err_0 == (
            if self@.unbond_token_id is None {
                GuildError::InvalidToken
            } else {
                GuildError::EmptyPayments
            }),
            contract_state_error(StorageCacheView::of(self@)) is None && self@.unbond_token_id
                is Some && payments@.len() > 0 ==> match r {
                Ok(farming_tokens) => {
                    &&& forall|i: int|
                        0 <= i < payments@.len() ==> (#[trigger] unbond_tokens_view(
                            payments@,
                        )[i]).unbond_error(self@.unbond_token_id.unwrap(), current_epoch) is None
                    &&& farming_tokens@ == (EsdtTokenPaymentView {
                        token_identifier: self@.farming_token_id,
                        token_nonce: 0,
                        amount: unbond_amounts_sum(
                            unbond_tokens_view(payments@),
                            payments@.len() as int,
                        ),
                    })
                },
                Err(e) => exists|i: int|
                    {
                        &&& 0 <= i < payments@.len()
                        &&& (#[trigger] unbond_tokens_view(payments@)[i]).unbond_error(
                            self@.unbond_token_id.unwrap(),
                            current_epoch,
                        ) == Some(e)
                        &&& forall|j: int|
                            0 <= j < i ==> (#[trigger] unbond_tokens_view(
                                payments@,
                            )[j]).unbond_error(self@.unbond_token_id.unwrap(), current_epoch)
                                is None
                    },
            },
    ;

    /// Turns an unbonding position of `caller` back into a staking position.
    ///
    /// Only an unbonding position that carries the position it came from can
    /// be cancelled. What it locks is staked again and reported to the shared
    /// configuration, the compounded part counts as compounded again, and the
    /// new position starts at the accumulator after the accrual of this call.
    fn cancel_unbond(
        &mut self,
        config: &mut GuildScConfig,
        factory: &mut GuildFactory,
        caller: Address,
        payment: &UnbondFarmToken,
        current_block_nonce: u64,
    ) -> (r: Result<StakingFarmToken, GuildError>)
        requires
            old(self)@.wf(),
        ensures
            final(self)@.wf(),
            match r {
                Ok(new_farm_token) => {
                    &&& old(self)@.cancel_unbond_error(
                        old(config)@,
                        old(factory)@,
                        caller,
                        payment@,
                        current_block_nonce,
                    ) is None
                    &&& final(self)@ == old(self)@.after_cancel_unbond(
                        old(config)@,
                        old(factory)@,
                        caller,
                        payment@,
                        current_block_nonce,
                    )
                    &&& final(config)@ == old(config)@.with_more_staked(payment@.payment.amount)
                    &&& final(factory)@ == old(self)@.factory_after_accrual(
                        old(config)@,
                        old(factory)@,
                        current_block_nonce,
                    )
                    &&& new_farm_token@.attributes == old(self)@.restaked_position(
                        old(config)@,
                        old(factory)@,
                        caller,
                        payment@,
                        current_block_nonce,
                    )
                    &&& new_farm_token@.payment == (EsdtTokenPaymentView {
                        token_identifier: old(self)@.farm_token_id.unwrap(),
                        token_nonce: 0,
                        amount: payment@.payment.amount,
                    })
                    &&& new_farm_token@.attributes.wf()
                },
                Err(e) => {
                    &&& old(self)@.cancel_unbond_error(
                        old(config)@,
                        old(factory)@,
                        caller,
                        payment@,
                        current_block_nonce,
                    ) == Some(e)
                    &&& final(self)@ == old(self)@
                    &&& final(config)@ == old(config)@
                    &&& final(factory)@ == old(factory)@
                },
            },
    ;
}

impl UnbondFarmModule for FarmStaking {
    fn unbond_farm(&self, payments: &Vec<UnbondFarmToken>, current_epoch: Epoch) -> (r: Result<
        EsdtTokenPayment,
        GuildError,
    >) {
        let storage_cache = StorageCache::new(self);
        match Self::validate_contract_state(&storage_cache) {
            Ok(_) => {},
            Err(e) => {
                return Err(e);
            },
        }
        let unbond_token_id = match self.unbond_token_id {
            Some(id) => id,
            None => {
                return Err(GuildError::InvalidToken);
            },
        };
        if payments.len() == 0 {
            return Err(GuildError::EmptyPayments);
        }
        let mut total_farming_tokens = Amount::zero();
        let mut i: usize = 0;
        while i < payments.len()
            invariant
                i <= payments.len(),
                payments@.len() > 0,
                self@.unbond_token_id == Some(unbond_token_id),
                contract_state_error(StorageCacheView::of(self@)) is None,
                storage_cache@ == StorageCacheView::of(self@),
                total_farming_tokens@ == unbond_amounts_sum(
                    unbond_tokens_view(payments@),
                    i as int,
                ),
                forall|j: int|
                    0 <= j < i ==> (#[trigger] unbond_tokens_view(payments@)[j]).unbond_error(
                        unbond_token_id,
                        current_epoch,
                    ) is None,
            decreases payments.len() - i,
        {
            let payment = &payments[i];
            assert(unbond_tokens_view(payments@)[i as int] == payment@);
            if payment.payment.token_identifier != unbond_token_id {
                return Err(GuildError::InvalidToken);
            }
            if current_epoch < payment.attributes.unlock_epoch {
                return Err(GuildError::UnbondPeriodNotOver);
            }
            total_farming_tokens = total_farming_tokens.plus(&payment.payment.amount);
            i += 1;
        }
        Ok(EsdtTokenPayment::new(storage_cache.farming_token_id, 0, total_farming_tokens))
    }

    fn cancel_unbond(
        &mut self,
        config: &mut GuildScConfig,
        factory: &mut GuildFactory,
        caller: Address,
        payment: &UnbondFarmToken,
        current_block_nonce: u64,
    ) -> (r: Result<StakingFarmToken, GuildError>) {
        match self.require_not_closing() {
            Err(e) => {
                return Err(e);
            },
            Ok(()) => {},
        }
        match self.unbond_token_id {
            Some(id) => {
                if id != payment.payment.token_identifier {
                    return Err(GuildError::InvalidToken);
                }
            },
            None => {
                return Err(GuildError::InvalidToken);
            },
        }
        if !payment.is_well_formed() {
            return Err(GuildError::BadPayments);
        }
        let unbond_attributes = payment.attributes.duplicate().into_part(&payment.payment.amount);
        let original_attributes = match unbond_attributes.opt_original_attributes {
            Some(original) => original,
            None => {
                return Err(GuildError::CannotCancelUnbond);
            },
        };
        proof {
            let original = payment@.attributes.opt_original_attributes.unwrap();
            lemma_part_is_well_formed(original, payment@.payment.amount);
        }
        let mut storage_cache = StorageCache::new(self);
        let farm_token_id = match Self::validate_contract_state(&storage_cache) {
            Ok(farm_token_id) => farm_token_id,
            Err(e) => {
                return Err(e);
            },
        };
        match FarmStakingWrapper::generate_aggregated_rewards(
            self,
            &mut storage_cache,
            config,
            factory,
            current_block_nonce,
        ) {
            Err(e) => {
                return Err(e);
            },
            Ok(()) => {},
        }
        let total_farming_tokens = original_attributes.get_total_supply();
        storage_cache.farm_token_supply = storage_cache.farm_token_supply.plus(
            &total_farming_tokens,
        );
        let rps = self.get_rps_by_user(caller, &storage_cache).duplicate();
        let mut new_attributes = FarmStakingWrapper::create_enter_farm_initial_attributes(
            total_farming_tokens.duplicate(),
            rps,
        );
        new_attributes.compounded_reward = original_attributes.compounded_reward.duplicate();

        let restaked = TokensPerTier::new(
            total_farming_tokens.minus(&original_attributes.compounded_reward),
            original_attributes.compounded_reward,
        );
        let new_total = self.total_base_staked_tokens.plus(&self.total_compounded_tokens).plus(
            &total_farming_tokens,
        );
        if !new_total.at_most(&config.max_staked_tokens) {
            return Err(GuildError::MaxStakedExceeded);
        }
        match config.require_guild_sc_caller(factory, self.own_address) {
            Err(e) => {
                return Err(e);
            },
            Ok(()) => {},
        }
        let new_farm_token = StakingFarmToken {
            payment: EsdtTokenPayment::new(farm_token_id, 0, total_farming_tokens.duplicate()),
            attributes: new_attributes,
        };

        storage_cache.commit(self, factory);
        self.update_all(config);
        self.add_total_staked_tokens(config, &restaked).unwrap();
        self.add_tokens(caller, &restaked);
        proof {
            assert(factory@.deployed_guilds == old(factory)@.deployed_guilds);
            assert(factory@.closed_guilds == old(factory)@.closed_guilds);
            assert(factory@.is_deployed(self.own_address) == old(factory)@.is_deployed(
                self.own_address,
            ));
        }
        self.call_increase_total_staked_tokens(config, factory, &total_farming_tokens).unwrap();
        proof {
            assert(self@ =~= old(self)@.after_cancel_unbond(
                old(config)@,
                old(factory)@,
                caller,
                payment@,
                current_block_nonce,
            ));
        }
        Ok(new_farm_token)
    }
}

} // verus!
