//! Unstaking: positions are handed in, their rewards are paid, and what they
//! held leaves the accounting. A single unstake locks the staking tokens in an
//! unbonding position.

use vstd::prelude::*;
use crate::amount::Amount;
use crate::call_config::CallConfigModule;
use crate::custom_rewards::CustomRewardsModule;
use crate::errors::GuildError;
use crate::farm_base::{
    amounts_sum, compounded_sum, lemma_compounded_sum_at_most_amounts, positions_view,
    BaseClaimRewardsModule, BaseFarmValidationModule,
};
use crate::farm_staking::{CloseGuildModule, FarmStaking, FarmStakingView};
use crate::guild_config::{
    is_guild_caller, Epoch, GlobalConfigModule, GuildScConfig, GuildScConfigView,
};
use crate::guild_factory::{Address, GuildFactory, GuildFactoryView};
use crate::read_config::ReadConfigModule;
use crate::rewards::{FarmContract, FarmStakingWrapper};
use crate::storage_cache::{StorageCache, StorageCacheView};
use crate::token_attributes::{
    lemma_part_is_well_formed, EsdtTokenPayment, EsdtTokenPaymentView, FixedSupplyToken,
    StakingFarmToken, StakingFarmTokenAttributes, StakingFarmTokenView, UnbondSftAttributes,
    UnbondSftAttributesView,
};
use crate::tokens_per_tier::{TokensPerTier, TokensPerTierView};
use crate::total_tokens::TokenPerTierModule;

verus! {

/// What unstaking several positions yields: the rewards, and the staking
/// tokens that were in them.
pub struct MultiUnstakeResultType {
    pub base_rewards_payment: EsdtTokenPayment,
    pub farming_tokens_payment: EsdtTokenPayment,
}

pub struct MultiUnstakeResultTypeView {
    pub base_rewards_payment: EsdtTokenPaymentView,
    pub farming_tokens_payment: EsdtTokenPaymentView,
}

impl View for MultiUnstakeResultType {
    type V = MultiUnstakeResultTypeView;

    open spec fn view(&self) -> MultiUnstakeResultTypeView {
        MultiUnstakeResultTypeView {
            base_rewards_payment: self.base_rewards_payment@,
            farming_tokens_payment: self.farming_tokens_payment@,
        }
    }
}

/// An unbonding position that is to be minted.
pub struct CreateUnbondTokenResult {
    pub unbond_token: EsdtTokenPayment,
    pub attributes: UnbondSftAttributes,
}

pub struct CreateUnbondTokenResultView {
    pub unbond_token: EsdtTokenPaymentView,
    pub attributes: UnbondSftAttributesView,
}

impl View for CreateUnbondTokenResult {
    type V = CreateUnbondTokenResultView;

    open spec fn view(&self) -> CreateUnbondTokenResultView {
        CreateUnbondTokenResultView {
            unbond_token: self.unbond_token@,
            attributes: self.attributes@,
        }
    }
}

/// What a single unstake hands back: the unbonding position, and the rewards.
pub struct UnstakeResult {
    pub unbond: CreateUnbondTokenResult,
    pub base_rewards_payment: EsdtTokenPayment,
}

pub struct UnstakeResultView {
    pub unbond: CreateUnbondTokenResultView,
    pub base_rewards_payment: EsdtTokenPaymentView,
}

impl View for UnstakeResult {
    type V = UnstakeResultView;

    open spec fn view(&self) -> UnstakeResultView {
        UnstakeResultView {
            unbond: self.unbond@,
            base_rewards_payment: self.base_rewards_payment@,
        }
    }
}

/// What a call that takes positions out has worked out, before anything is
/// written.
pub struct ExitPlan {
    pub storage_cache: StorageCache,
    pub unstaked: TokensPerTier,
    pub rewards: Amount,
    pub farming_tokens: Amount,
}

/// What the positions `tokens` held, in its two parts.
pub open spec fn unstaked_tokens(tokens: Seq<StakingFarmTokenView>) -> TokensPerTierView {
    TokensPerTierView {
        base: (amounts_sum(tokens, tokens.len() as int) - compounded_sum(
            tokens,
            tokens.len() as int,
        )) as nat,
        compounded: compounded_sum(tokens, tokens.len() as int),
    }
}

impl FarmStakingView {
    /// Why positions cannot be taken out, if they cannot: the checks on the
    /// positions, the accrual, a reserve that cannot pay the rewards, or an
    /// accounting that does not hold what the positions say.
    pub open spec fn exit_error(
        self,
        config: GuildScConfigView,
        factory: GuildFactoryView,
        caller: Address,
        tokens: Seq<StakingFarmTokenView>,
        current_block_nonce: u64,
    ) -> Option<GuildError> {
        let accrued = self.accrued(config.total_staking_token_staked, factory, current_block_nonce);
        let unstaked = unstaked_tokens(tokens);
        if self.positions_error(tokens) is Some {
            self.positions_error(tokens)
        } else if self.accrual_error(
            config.total_staking_token_staked,
            factory,
            current_block_nonce,
        ) is Some {
            self.accrual_error(config.total_staking_token_staked, factory, current_block_nonce)
        } else if self.rewards_after_accrual(config, factory, caller, tokens, current_block_nonce)
            > accrued.reward_reserve {
            Some(GuildError::NegativeResult)
        } else if !self.tokens_of(caller).holds(unstaked) || !self.pool_of(caller).holds(unstaked) {
            Some(GuildError::NegativeResult)
        } else {
            None
        }
    }

    /// The cache of a call that takes the positions `tokens` out: the accrual
    /// has happened, the reserve has paid the rewards, and the supply has
    /// shrunk by what the positions held.
    pub open spec fn exit_cache(
        self,
        config: GuildScConfigView,
        factory: GuildFactoryView,
        caller: Address,
        tokens: Seq<StakingFarmTokenView>,
        current_block_nonce: u64,
    ) -> StorageCacheView {
        let accrued = self.accrued(config.total_staking_token_staked, factory, current_block_nonce);
        StorageCacheView {
            reward_reserve: (accrued.reward_reserve - self.rewards_after_accrual(
                config,
                factory,
                caller,
                tokens,
                current_block_nonce,
            )) as nat,
            farm_token_supply: (accrued.farm_token_supply - amounts_sum(
                tokens,
                tokens.len() as int,
            )) as nat,
            ..accrued
        }
    }

    /// The guild after the positions `tokens` of `caller` were taken out.
    #[verifier::opaque]
    pub open spec fn after_exit(
        self,
        config: GuildScConfigView,
        factory: GuildFactoryView,
        caller: Address,
        tokens: Seq<StakingFarmTokenView>,
        current_block_nonce: u64,
    ) -> FarmStakingView {
        let unstaked = unstaked_tokens(tokens);
        let committed = self.exit_cache(
            config,
            factory,
            caller,
            tokens,
            current_block_nonce,
        ).committed_to(self);
        committed.with_pool_reduced(caller, unstaked).with_tokens_removed(
            caller,
            unstaked,
        ).with_config(config)
    }

    /// Why a single unstake is rejected, if it is.
    pub open spec fn unstake_error(
        self,
        config: GuildScConfigView,
        factory: GuildFactoryView,
        caller: Address,
        token: StakingFarmTokenView,
        current_block_nonce: u64,
        current_epoch: Epoch,
    ) -> Option<GuildError> {
        let tokens = seq![token];
        if self.guild_closing {
            Some(GuildError::GuildClosing)
        } else if self.exit_error(config, factory, caller, tokens, current_block_nonce) is Some {
            self.exit_error(config, factory, caller, tokens, current_block_nonce)
        } else if !self.after_exit(
            config,
            factory,
            caller,
            tokens,
            current_block_nonce,
        ).over_min_stake(config, caller) {
            Some(GuildError::NotEnoughStake)
        } else if !is_guild_caller(factory, self.own_address) {
            Some(GuildError::OnlyGuilds)
        } else if token.payment.amount > config.total_staking_token_staked {
            Some(GuildError::NegativeResult)
        } else if current_epoch + self.min_unbond_epochs_for(config, caller) > u64::MAX {
            Some(GuildError::MathFailure)
        } else {
            None
        }
    }
}

/// What taking positions out does to the account of the caller, and what
/// it leaves alone.
pub proof fn lemma_after_exit_account(
    guild: FarmStakingView,
    config: GuildScConfigView,
    factory: GuildFactoryView,
    caller: Address,
    tokens: Seq<StakingFarmTokenView>,
    current_block_nonce: u64,
)
    ensures
        guild.after_exit(config, factory, caller, tokens, current_block_nonce).tokens_of(caller)
            == guild.tokens_of(caller).without(unstaked_tokens(tokens)),
        ({
            let exited = guild.after_exit(config, factory, caller, tokens, current_block_nonce);
            &&& exited.own_address == guild.own_address
            &&& exited.owner == guild.owner
            &&& exited.guild_master == guild.guild_master
            &&& exited.state == guild.state
            &&& exited.farming_token_id == guild.farming_token_id
            &&& exited.reward_token_id == guild.reward_token_id
            &&& exited.farm_token_id == guild.farm_token_id
            &&& exited.unbond_token_id == guild.unbond_token_id
            &&& exited.division_safety_constant == guild.division_safety_constant
            &&& exited.guild_closing == guild.guild_closing
            &&& exited.produce_rewards_enabled == guild.produce_rewards_enabled
        }),
{
    reveal(FarmStakingView::after_exit);
}

/// Unstaking.
pub trait UnstakeFarmModule: View<V = FarmStakingView> {
    /// Works out what taking the positions `tokens` of `caller` out comes to,
    /// and changes nothing.
    fn plan_exit(
        &self,
        config: &GuildScConfig,
        factory: &GuildFactory,
        caller: Address,
        tokens: &Vec<StakingFarmToken>,
        current_block_nonce: u64,
    ) -> (r: Result<ExitPlan, GuildError>)
        requires
            self@.wf(),
        ensures
            match r {
                Ok(plan) => {
                    &&& self@.exit_error(
                        config@,
                        factory@,
                        caller,
                        positions_view(tokens@),
                        current_block_nonce,
                    ) is None
                    &&& plan.storage_cache@ == self@.exit_cache(
                        config@,
                        factory@,
                        caller,
                        positions_view(tokens@),
                        current_block_nonce,
                    )
                    &&& plan.unstaked@ == unstaked_tokens(positions_view(tokens@))
                    &&& plan.rewards@ == self@.rewards_after_accrual(
                        config@,
                        factory@,
                        caller,
                        positions_view(tokens@),
                        current_block_nonce,
                    )
                    &&& plan.farming_tokens@ == amounts_sum(
                        positions_view(tokens@),
                        tokens@.len() as int,
                    )
                    &&& plan.farming_tokens@ == plan.unstaked@.total()
                    &&& self@.tokens_of(caller).holds(plan.unstaked@)
                    &&& self@.pool_of(caller).holds(plan.unstaked@)
                    &&& plan.storage_cache@.farm_token_supply + plan.farming_tokens@
                        == self@.farm_token_supply
                    &&& plan.storage_cache@.requested_rewards <= factory@.remaining_rewards
                    &&& plan.storage_cache@.accumulated_rewards
                        <= plan.storage_cache@.reward_capacity
                },
                Err(e) => self@.exit_error(
                    config@,
                    factory@,
                    caller,
                    positions_view(tokens@),
                    current_block_nonce,
                ) == Some(e),
            },
    ;

    /// Writes what [`FarmStaking::plan_exit`] worked out.
    fn commit_exit(
        &mut self,
        config: &GuildScConfig,
        factory: &mut GuildFactory,
        caller: Address,
        storage_cache: StorageCache,
        unstaked: &TokensPerTier,
    )
        requires
            storage_cache@.requested_rewards <= old(factory)@.remaining_rewards,
            old(self)@.pools_wf(),
            old(self)@.tokens_of(caller).holds(unstaked@),
            old(self)@.pool_of(caller).holds(unstaked@),
        ensures
            final(factory)@ == storage_cache@.paid_by(old(factory)@),
            final(self)@ == storage_cache@.committed_to(old(self)@).with_pool_reduced(
                caller,
                unstaked@,
            ).with_tokens_removed(caller, unstaked@).with_config(config@),
    ;

    /// The unbonding position for `amount` that unlocks at `unlock_epoch`.
    fn create_unbond_tokens(
        &self,
        amount: Amount,
        opt_original_attributes: Option<StakingFarmTokenAttributes>,
        unlock_epoch: Epoch,
    ) -> (r: Result<CreateUnbondTokenResult, GuildError>)
        ensures
            self@.unbond_token_id is None ==> r is Err && r->Err_0 == GuildError::InvalidToken,
            self@.unbond_token_id is Some ==> r is Ok && r->Ok_0@ == (CreateUnbondTokenResultView {
                unbond_token: EsdtTokenPaymentView {
                    token_identifier: self@.unbond_token_id.unwrap(),
                    token_nonce: 0,
                    amount: amount@,
                },
                attributes: UnbondSftAttributesView {
                    unlock_epoch,
                    supply: amount@,
                    opt_original_attributes: match opt_original_attributes {
                        Some(original) => Some(original@),
                        None => None,
                    },
                },
            }),
    ;

    /// Takes the positions `payments` of `caller` out: pays their rewards and
    /// releases the staking tokens that they held.
    fn multi_unstake(
        &mut self,
        config: &GuildScConfig,
        factory: &mut GuildFactory,
        caller: Address,
        payments: &Vec<StakingFarmToken>,
        current_block_nonce: u64,
    ) -> (r: Result<MultiUnstakeResultType, GuildError>)
        requires
            old(self)@.wf(),
        ensures
            final(self)@.wf(),
            match r {
                Ok(result) => {
                    &&& old(self)@.exit_error(
                        config@,
                        old(factory)@,
                        caller,
                        positions_view(payments@),
                        current_block_nonce,
                    ) is None
                    &&& final(self)@ == old(self)@.after_exit(
                        config@,
                        old(factory)@,
                        caller,
                        positions_view(payments@),
                        current_block_nonce,
                    )
                    &&& final(factory)@ == old(self)@.factory_after_accrual(
                        config@,
                        old(factory)@,
                        current_block_nonce,
                    )
                    &&& result@.base_rewards_payment == (EsdtTokenPaymentView {
                        token_identifier: old(self)@.reward_token_id,
                        token_nonce: 0,
                        amount: old(self)@.rewards_after_accrual(
                            config@,
                            old(factory)@,
                            caller,
                            positions_view(payments@),
                            current_block_nonce,
                        ),
                    })
                    &&& result@.farming_tokens_payment == (EsdtTokenPaymentView {
                        token_identifier: old(self)@.farming_token_id,
                        token_nonce: 0,
                        amount: amounts_sum(positions_view(payments@), payments@.len() as int),
                    })
                },
                Err(e) => {
                    &&& old(self)@.exit_error(
                        config@,
                        old(factory)@,
                        caller,
                        positions_view(payments@),
                        current_block_nonce,
                    ) == Some(e)
                    &&& final(self)@ == old(self)@
                    &&& final(factory)@ == old(factory)@
                },
            },
    ;

    /// Unstakes one position of `caller`, or a part of one.
    ///
    /// The rewards of what is handed in are paid, and what it held leaves the
    /// accounting and is reported to the shared configuration. The staking
    /// tokens are locked in an unbonding position that carries the position
    /// it came from, until the caller's unbonding period is over. What the
    /// caller keeps staked is nothing, or at least the minimum.
    fn unstake_farm(
        &mut self,
        config: &mut GuildScConfig,
        factory: &mut GuildFactory,
        caller: Address,
        payment: StakingFarmToken,
        current_block_nonce: u64,
        current_epoch: Epoch,
    ) -> (r: Result<UnstakeResult, GuildError>)
        requires
            old(self)@.wf(),
        ensures
            final(self)@.wf(),
            match r {
                Ok(result) => {
                    &&& old(self)@.unstake_error(
                        old(config)@,
                        old(factory)@,
                        caller,
                        payment@,
                        current_block_nonce,
                        current_epoch,
                    ) is None
                    &&& final(self)@ == old(self)@.after_exit(
                        old(config)@,
                        old(factory)@,
                        caller,
                        seq![payment@],
                        current_block_nonce,
                    )
                    &&& final(config)@ == old(config)@.with_less_staked(payment@.payment.amount)
                    &&& final(factory)@ == old(self)@.factory_after_accrual(
                        old(config)@,
                        old(factory)@,
                        current_block_nonce,
                    )
                    &&& result@.base_rewards_payment == (EsdtTokenPaymentView {
                        token_identifier: old(self)@.reward_token_id,
                        token_nonce: 0,
                        amount: old(self)@.rewards_after_accrual(
                            old(config)@,
                            old(factory)@,
                            caller,
                            seq![payment@],
                            current_block_nonce,
                        ),
                    })
                    &&& old(self)@.unbond_token_id is Some
                    &&& result@.unbond == (CreateUnbondTokenResultView {
                        unbond_token: EsdtTokenPaymentView {
                            token_identifier: old(self)@.unbond_token_id.unwrap(),
                            token_nonce: 0,
                            amount: payment@.payment.amount,
                        },
                        attributes: UnbondSftAttributesView {
                            unlock_epoch: (current_epoch + old(self)@.min_unbond_epochs_for(
                                old(config)@,
                                caller,
                            )) as u64,
                            supply: payment@.payment.amount,
                            opt_original_attributes: Some(payment@.part()),
                        },
                    })
                    &&& result@.unbond.attributes.wf()
                },
                Err(e) => {
                    &&& old(self)@.unbond_token_id is Some ==> old(self)@.unstake_error(
                        old(config)@,
                        old(factory)@,
                        caller,
                        payment@,
                        current_block_nonce,
                        current_epoch,
                    ) == Some(e)
                    &&& old(self)@.unbond_token_id is None && !old(self)@.guild_closing ==> e
                        == GuildError::InvalidToken
                    &&& final(self)@ == old(self)@
                    &&& final(config)@ == old(config)@
                    &&& final(factory)@ == old(factory)@
                },
            },
    ;
}

impl UnstakeFarmModule for FarmStaking {
    fn plan_exit(
        &self,
        config: &GuildScConfig,
        factory: &GuildFactory,
        caller: Address,
        tokens: &Vec<StakingFarmToken>,
        current_block_nonce: u64,
    ) -> (r: Result<ExitPlan, GuildError>) {
        if tokens.len() == 0 {
            return Err(GuildError::EmptyPayments);
        }
        let mut storage_cache = StorageCache::new(self);
        let farm_token_id = match Self::validate_contract_state(&storage_cache) {
            Ok(farm_token_id) => farm_token_id,
            Err(e) => {
                return Err(e);
            },
        };
        if !Self::check_positions(tokens, farm_token_id) {
            return Err(GuildError::BadPayments);
        }
        match FarmStakingWrapper::generate_aggregated_rewards(
            self,
            &mut storage_cache,
            config,
            factory,
            current_block_nonce,
        ) {
            Err(e) => {
                return Err(e);
            },
            Ok(()) => {},
        }
        let rewards = self.sum_rewards(caller, &storage_cache, tokens);
        let new_reserve = match storage_cache.reward_reserve.checked_minus(&rewards) {
            Some(reserve) => reserve,
            None => {
                return Err(GuildError::NegativeResult);
            },
        };
        let farming_tokens = Self::sum_amounts(tokens);
        let compounded = Self::sum_compounded(tokens, farm_token_id);
        proof {
            lemma_compounded_sum_at_most_amounts(
                positions_view(tokens@),
                farm_token_id,
                tokens@.len() as int,
            );
        }
        let unstaked = TokensPerTier::new(farming_tokens.minus(&compounded), compounded);
        if self.get_user_staked_tokens(caller).total().less_than(&farming_tokens) {
            return Err(GuildError::NegativeResult);
        }
        if self.get_pool_tokens(caller).total().less_than(&farming_tokens) {
            return Err(GuildError::NegativeResult);
        }
        storage_cache.reward_reserve = new_reserve;
        storage_cache.farm_token_supply = storage_cache.farm_token_supply.minus(&farming_tokens);
        Ok(ExitPlan { storage_cache, unstaked, rewards, farming_tokens })
    }

    fn commit_exit(
        &mut self,
        config: &GuildScConfig,
        factory: &mut GuildFactory,
        caller: Address,
        storage_cache: StorageCache,
        unstaked: &TokensPerTier,
    ) {
        storage_cache.commit(self, factory);
        self.update_all(config);
        self.remove_total_staked_tokens(caller, unstaked).unwrap();
        self.remove_tokens(caller, unstaked).unwrap();
        proof {
            assert(self@ =~= storage_cache@.committed_to(old(self)@).with_pool_reduced(
                caller,
                unstaked@,
            ).with_tokens_removed(caller, unstaked@).with_config(config@));
        }
    }

    fn create_unbond_tokens(
        &self,
        amount: Amount,
        opt_original_attributes: Option<StakingFarmTokenAttributes>,
        unlock_epoch: Epoch,
    ) -> (r: Result<CreateUnbondTokenResult, GuildError>) {
        let unbond_token_id = match self.unbond_token_id {
            Some(id) => id,
            None => {
                return Err(GuildError::InvalidToken);
            },
        };
        let attributes = UnbondSftAttributes {
            unlock_epoch,
            supply: amount.duplicate(),
            opt_original_attributes,
        };
        Ok(
            CreateUnbondTokenResult {
                unbond_token: EsdtTokenPayment::new(unbond_token_id, 0, amount),
                attributes,
            },
        )
    }

    fn multi_unstake(
        &mut self,
        config: &GuildScConfig,
        factory: &mut GuildFactory,
        caller: Address,
        payments: &Vec<StakingFarmToken>,
        current_block_nonce: u64,
    ) -> (r: Result<MultiUnstakeResultType, GuildError>) {
        let plan = match self.plan_exit(config, factory, caller, payments, current_block_nonce) {
            Ok(plan) => plan,
            Err(e) => {
                return Err(e);
            },
        };
        let result = MultiUnstakeResultType {
            base_rewards_payment: EsdtTokenPayment::new(self.reward_token_id, 0, plan.rewards),
            farming_tokens_payment: EsdtTokenPayment::new(
                self.farming_token_id,
                0,
                plan.farming_tokens,
            ),
        };
        self.commit_exit(config, factory, caller, plan.storage_cache, &plan.unstaked);
        proof {
            reveal(FarmStakingView::after_exit);
        }
        Ok(result)
    }

    fn unstake_farm(
        &mut self,
        config: &mut GuildScConfig,
        factory: &mut GuildFactory,
        caller: Address,
        payment: StakingFarmToken,
        current_block_nonce: u64,
        current_epoch: Epoch,
    ) -> (r: Result<UnstakeResult, GuildError>) {
        match self.require_not_closing() {
            Err(e) => {
                return Err(e);
            },
            Ok(()) => {},
        }
        if self.unbond_token_id.is_none() {
            return Err(GuildError::InvalidToken);
        }
        let mut payments: Vec<StakingFarmToken> = Vec::new();
        payments.push(payment);
        proof {
            assert(positions_view(payments@) =~= seq![payment@]);
        }
        let plan = match self.plan_exit(config, factory, caller, &payments, current_block_nonce) {
            Ok(plan) => plan,
            Err(e) => {
                return Err(e);
            },
        };
        proof {
            assert(positions_view(payments@)[0] == payment@);
            assert(amounts_sum(positions_view(payments@), 0) == 0);
            assert(amounts_sum(positions_view(payments@), 1) == payment@.payment.amount);
            lemma_after_exit_account(
                self@,
                config@,
                factory@,
                caller,
                seq![payment@],
                current_block_nonce,
            );
        }
        let remaining_stake = match self.get_user_staked_tokens(caller).checked_without(
            &plan.unstaked,
        ) {
            Some(remaining) => remaining.total(),
            None => {
                return Err(GuildError::NegativeResult);
            },
        };
        if !remaining_stake.is_zero() {
            let min_stake = self.get_min_stake_for_user(config, caller);
            if !min_stake.at_most(&remaining_stake) {
                return Err(GuildError::NotEnoughStake);
            }
        }
        match config.require_guild_sc_caller(factory, self.own_address) {
            Err(e) => {
                return Err(e);
            },
            Ok(()) => {},
        }
        if config.total_staking_token_staked.less_than(&plan.farming_tokens) {
            return Err(GuildError::NegativeResult);
        }
        let unbond_epochs = self.get_min_unbond_epochs_for_user(config, caller);
        let unlock_epoch = match current_epoch.checked_add(unbond_epochs) {
            Some(epoch) => epoch,
            None => {
                return Err(GuildError::MathFailure);
            },
        };
        let token = &payments[0];
        assert(positions_view(payments@)[0] == token@);
        assert(token@.wf());
        proof {
            lemma_part_is_well_formed(token@.attributes, token@.payment.amount);
            assert(amounts_sum(positions_view(payments@), 0) == 0);
            assert(amounts_sum(positions_view(payments@), 1) == token@.payment.amount);
        }
        let original_attributes = token.attributes.duplicate().into_part(&token.payment.amount);
        let unbond = match self.create_unbond_tokens(
            plan.farming_tokens.duplicate(),
            Some(original_attributes),
            unlock_epoch,
        ) {
            Ok(unbond) => unbond,
            Err(e) => {
                return Err(e);
            },
        };
        let base_rewards_payment = EsdtTokenPayment::new(self.reward_token_id, 0, plan.rewards);

        self.commit_exit(config, factory, caller, plan.storage_cache, &plan.unstaked);
        proof {
            assert(self@ == old(self)@.after_exit(
                old(config)@,
                old(factory)@,
                caller,
                seq![payment@],
                current_block_nonce,
            )) by {
                reveal(FarmStakingView::after_exit);
            }
            assert(factory@.deployed_guilds == old(factory)@.deployed_guilds);
            assert(factory@.closed_guilds == old(factory)@.closed_guilds);
            assert(factory@.is_deployed(self.own_address) == old(factory)@.is_deployed(
                self.own_address,
            ));
        }
        self.call_decrease_total_staked_tokens(config, factory, &plan.farming_tokens).unwrap();
        Ok(UnstakeResult { unbond, base_rewards_payment })
    }
}

} // verus!
