//! The end of a guild: the guild master closes it, and the users move on.

use vstd::prelude::*;
use crate::amount::Amount;
use crate::call_config::CallConfigModule;
use crate::custom_events::{MigrateToOtherFarmData, MigrateToOtherFarmDataView};
use crate::custom_rewards::CustomRewardsModule;
use crate::errors::GuildError;
use crate::farm_base::{amounts_sum, positions_view, BaseClaimRewardsModule};
use crate::farm_staking::{CloseGuildModule, FarmStaking, FarmStakingView};
use crate::guild_config::{
    is_guild_caller, Epoch, GlobalConfigModule, GuildScConfig, GuildScConfigView, UNPAUSED,
};
use crate::guild_factory::{Address, FactoryModule, GuildFactory, GuildFactoryView};
use crate::guild_interactions::GuildInteractionsModule;
use crate::token_attributes::{
    EsdtTokenPayment, EsdtTokenPaymentView, StakingFarmToken, StakingFarmTokenView,
    UnbondSftAttributesView,
};
use crate::total_tokens::TokenPerTierModule;
use crate::unstake_farm::{
    lemma_after_exit_account, CreateUnbondTokenResult, CreateUnbondTokenResultView,
    UnstakeFarmModule,
};

verus! {

/// What closing a guild hands back: the unbonding position of the guild
/// master, the rewards of its positions, and the rewards that the guild gave
/// back to the factory.
pub struct CloseGuildResult {
    pub unbond: CreateUnbondTokenResult,
    pub base_rewards_payment: EsdtTokenPayment,
    pub returned_rewards: Amount,
}

pub struct CloseGuildResultView {
    pub unbond: CreateUnbondTokenResultView,
    pub base_rewards_payment: EsdtTokenPaymentView,
    pub returned_rewards: nat,
}

impl View for CloseGuildResult {
    type V = CloseGuildResultView;

    open spec fn view(&self) -> CloseGuildResultView {
        CloseGuildResultView {
            unbond: self.unbond@,
            base_rewards_payment: self.base_rewards_payment@,
            returned_rewards: self.returned_rewards@,
        }
    }
}

impl FarmStakingView {
    /// Why the shared configuration would not take the report that `amount`
    /// has left the guild, if it would not.
    pub open spec fn decrease_error(
        self,
        config: GuildScConfigView,
        factory: GuildFactoryView,
        amount: nat,
    ) -> Option<GuildError> {
        if !is_guild_caller(factory, self.own_address) {
            Some(GuildError::OnlyGuilds)
        } else if amount > config.total_staking_token_staked {
            Some(GuildError::NegativeResult)
        } else {
            None
        }
    }

    /// Why the guild cannot be closed, if it cannot.
    pub open spec fn close_guild_error(
        self,
        config: GuildScConfigView,
        factory: GuildFactoryView,
        caller: Address,
        tokens: Seq<StakingFarmTokenView>,
        current_block_nonce: u64,
        current_epoch: Epoch,
    ) -> Option<GuildError> {
        let total_payment = amounts_sum(tokens, tokens.len() as int);
        if self.guild_closing {
            Some(GuildError::GuildClosing)
        } else if config.global_pause_status != UNPAUSED {
            Some(GuildError::GloballyPaused)
        } else if caller != self.guild_master {
            Some(GuildError::OnlyGuildMaster)
        } else if tokens.len() == 0 {
            Some(GuildError::EmptyPayments)
        } else if total_payment != self.master_tokens().total() {
            Some(GuildError::MustSendAllTokens)
        } else if self.decrease_error(config, factory, total_payment) is Some {
            self.decrease_error(config, factory, total_payment)
        } else if self.unbond_token_id is None {
            Some(GuildError::InvalidToken)
        } else if current_epoch + config.min_unbond_epochs_guild_master > u64::MAX {
            Some(GuildError::MathFailure)
        } else if !factory.is_deployed(self.own_address) {
            Some(GuildError::UnknownGuild)
        } else if self.reward_token_id != factory.farming_token_id {
            Some(GuildError::InvalidPayment)
        } else {
            self.exit_error(config, factory, caller, tokens, current_block_nonce)
        }
    }

    /// What a guild that closes gives back to the factory: the capacity that
    /// it has not accrued, after the last accrual.
    pub open spec fn returned_on_close(
        self,
        config: GuildScConfigView,
        factory: GuildFactoryView,
        caller: Address,
        tokens: Seq<StakingFarmTokenView>,
        current_block_nonce: u64,
    ) -> nat {
        let exited = self.after_exit(config, factory, caller, tokens, current_block_nonce);
        (exited.reward_capacity - exited.accumulated_rewards) as nat
    }

    /// The guild after it was closed: the guild master's positions are taken
    /// out, no more rewards are produced, the guild is closing, and its
    /// capacity is what it has accrued.
    pub open spec fn after_close_guild(
        self,
        config: GuildScConfigView,
        factory: GuildFactoryView,
        caller: Address,
        tokens: Seq<StakingFarmTokenView>,
        current_block_nonce: u64,
    ) -> FarmStakingView {
        let exited = self.after_exit(config, factory, caller, tokens, current_block_nonce);
        FarmStakingView {
            produce_rewards_enabled: false,
            guild_closing: true,
            reward_capacity: exited.accumulated_rewards,
            ..exited
        }
    }

    /// Why a migration out of the guild is rejected, if it is.
    pub open spec fn migrate_error(
        self,
        config: GuildScConfigView,
        factory: GuildFactoryView,
        caller: Address,
        tokens: Seq<StakingFarmTokenView>,
        current_block_nonce: u64,
    ) -> Option<GuildError> {
        let total = amounts_sum(tokens, tokens.len() as int);
        if !self.guild_closing {
            Some(GuildError::GuildNotClosing)
        } else if config.global_pause_status != UNPAUSED {
            Some(GuildError::GloballyPaused)
        } else if caller == self.guild_master {
            Some(GuildError::GuildMasterCannotMigrate)
        } else if tokens.len() == 0 {
            Some(GuildError::EmptyPayments)
        } else if self.decrease_error(config, factory, total) is Some {
            self.decrease_error(config, factory, total)
        } else {
            self.exit_error(config, factory, caller, tokens, current_block_nonce)
        }
    }
}

/// Closing a guild, and leaving a closed one.
pub trait MigrationModule: View<V = FarmStakingView> {
    /// Closes the guild. Only the guild master can, and only by handing in
    /// everything that it has staked, no more and no less.
    ///
    /// The positions are taken out and their rewards paid, the staking tokens
    /// are locked in an unbonding position that cannot be cancelled, and the
    /// guild stops producing rewards and is closing from now on. The capacity
    /// that it has not accrued goes back to the factory, which strikes the
    /// guild off its register.
    fn close_guild(
        &mut self,
        config: &mut GuildScConfig,
        factory: &mut GuildFactory,
        caller: Address,
        payments: &Vec<StakingFarmToken>,
        current_block_nonce: u64,
        current_epoch: Epoch,
    ) -> (r: Result<CloseGuildResult, GuildError>)
        requires
            old(self)@.wf(),
        ensures
            final(self)@.wf(),
            match r {
                Ok(result) => {
                    &&& old(self)@.close_guild_error(
                        old(config)@,
                        old(factory)@,
                        caller,
                        positions_view(payments@),
                        current_block_nonce,
                        current_epoch,
                    ) is None
                    &&& final(self)@ == old(self)@.after_close_guild(
                        old(config)@,
                        old(factory)@,
                        caller,
                        positions_view(payments@),
                        current_block_nonce,
                    )
                    &&& final(config)@ == old(config)@.with_less_staked(
                        amounts_sum(positions_view(payments@), payments@.len() as int),
                    )
                    &&& old(self)@.factory_after_accrual(
                        old(config)@,
                        old(factory)@,
                        current_block_nonce,
                    ).closes_guild(final(factory)@, old(self)@.own_address,
                        result@.returned_rewards)
                    &&& result@.returned_rewards == old(self)@.returned_on_close(
                        old(config)@,
                        old(factory)@,
                        caller,
                        positions_view(payments@),
                        current_block_nonce,
                    )
                    &&& result@.base_rewards_payment == (EsdtTokenPaymentView {
                        token_identifier: old(self)@.reward_token_id,
                        token_nonce: 0,
                        amount: old(self)@.rewards_after_accrual(
                            old(config)@,
                            old(factory)@,
                            caller,
                            positions_view(payments@),
                            current_block_nonce,
                        ),
                    })
                    &&& result@.unbond == (CreateUnbondTokenResultView {
                        unbond_token: EsdtTokenPaymentView {
                            token_identifier: old(self)@.unbond_token_id.unwrap(),
                            token_nonce: 0,
                            amount: amounts_sum(positions_view(payments@), payments@.len() as int),
                        },
                        attributes: UnbondSftAttributesView {
                            unlock_epoch: (current_epoch + old(
                                config)@.min_unbond_epochs_guild_master) as u64,
                            supply: amounts_sum(positions_view(payments@), payments@.len() as int),
                            opt_original_attributes: None,
                        },
                    })
                },
                Err(e) => {
                    &&& old(self)@.close_guild_error(
                        old(config)@,
                        old(factory)@,
                        caller,
                        positions_view(payments@),
                        current_block_nonce,
                        current_epoch,
                    ) == Some(e)
                    &&& final(self)@ == old(self)@
                    &&& final(config)@ == old(config)@
                    &&& final(factory)@ == old(factory)@
                },
            },
    ;

    /// Takes the positions `payments` of the user `caller` out of a closing
    /// guild, so that the factory can stake what they held in the guild at
    /// `guild_address`. The rewards are paid, and what leaves is reported to
    /// the shared configuration. Nothing is locked.
    fn migrate_to_other_guild(
        &mut self,
        config: &mut GuildScConfig,
        factory: &mut GuildFactory,
        caller: Address,
        payments: &Vec<StakingFarmToken>,
        guild_address: Address,
        current_block_nonce: u64,
    ) -> (r: Result<MigrateToOtherFarmData, GuildError>)
        requires
            old(self)@.wf(),
        ensures
            final(self)@.wf(),
            match r {
                Ok(result) => {
                    &&& old(self)@.migrate_error(
                        old(config)@,
                        old(factory)@,
                        caller,
                        positions_view(payments@),
                        current_block_nonce,
                    ) is None
                    &&& final(self)@ == old(self)@.after_exit(
                        old(config)@,
                        old(factory)@,
                        caller,
                        positions_view(payments@),
                        current_block_nonce,
                    )
                    &&& final(config)@ == old(config)@.with_less_staked(
                        amounts_sum(positions_view(payments@), payments@.len() as int),
                    )
                    &&& final(factory)@ == old(self)@.factory_after_accrual(
                        old(config)@,
                        old(factory)@,
                        current_block_nonce,
                    )
                    &&& result@ == (MigrateToOtherFarmDataView {
                        guild_address,
                        total_farming_tokens: amounts_sum(
                            positions_view(payments@),
                            payments@.len() as int,
                        ),
                        base_rewards: EsdtTokenPaymentView {
                            token_identifier: old(self)@.reward_token_id,
                            token_nonce: 0,
                            amount: old(self)@.rewards_after_accrual(
                                old(config)@,
                                old(factory)@,
                                caller,
                                positions_view(payments@),
                                current_block_nonce,
                            ),
                        },
                    })
                },
                Err(e) => {
                    &&& old(self)@.migrate_error(
                        old(config)@,
                        old(factory)@,
                        caller,
                        positions_view(payments@),
                        current_block_nonce,
                    ) == Some(e)
                    &&& final(self)@ == old(self)@
                    &&& final(config)@ == old(config)@
                    &&& final(factory)@ == old(factory)@
                },
            },
    ;
}

impl MigrationModule for FarmStaking {
    fn close_guild(
        &mut self,
        config: &mut GuildScConfig,
        factory: &mut GuildFactory,
        caller: Address,
        payments: &Vec<StakingFarmToken>,
        current_block_nonce: u64,
        current_epoch: Epoch,
    ) -> (r: Result<CloseGuildResult, GuildError>) {
        match self.require_not_closing() {
            Err(e) => {
                return Err(e);
            },
            Ok(()) => {},
        }
        match config.require_not_globally_paused() {
            Err(e) => {
                return Err(e);
            },
            Ok(()) => {},
        }
        if caller != self.guild_master {
            return Err(GuildError::OnlyGuildMaster);
        }
        if payments.len() == 0 {
            return Err(GuildError::EmptyPayments);
        }
        let total_payment = Self::sum_amounts(payments);
        let total_guild_master_tokens = self.get_total_stake_for_user(caller);
        if !total_payment.same_as(&total_guild_master_tokens) {
            return Err(GuildError::MustSendAllTokens);
        }
        match config.require_guild_sc_caller(factory, self.own_address) {
            Err(e) => {
                return Err(e);
            },
            Ok(()) => {},
        }
        if config.total_staking_token_staked.less_than(&total_payment) {
            return Err(GuildError::NegativeResult);
        }
        if self.unbond_token_id.is_none() {
            return Err(GuildError::InvalidToken);
        }
        let unlock_epoch = match current_epoch.checked_add(config.min_unbond_epochs_guild_master) {
            Some(epoch) => epoch,
            None => {
                return Err(GuildError::MathFailure);
            },
        };
        let own_address = self.own_address;
        if !factory.is_deployed_guild(own_address) {
            return Err(GuildError::UnknownGuild);
        }
        if self.reward_token_id != factory.guild_local_config.farming_token_id {
            return Err(GuildError::InvalidPayment);
        }
        let multi_unstake_result = match self.multi_unstake(
            config,
            factory,
            caller,
            payments,
            current_block_nonce,
        ) {
            Ok(result) => result,
            Err(e) => {
                return Err(e);
            },
        };
        proof {
            lemma_after_exit_account(
                old(self)@,
                old(config)@,
                old(factory)@,
                caller,
                positions_view(payments@),
                current_block_nonce,
            );
            assert(factory@.deployed_guilds == old(factory)@.deployed_guilds);
            assert(factory@.closed_guilds == old(factory)@.closed_guilds);
            assert(factory@.is_deployed(own_address) == old(factory)@.is_deployed(own_address));
        }
        self.call_decrease_total_staked_tokens(config, factory, &total_payment).unwrap();
        let unbond = match self.create_unbond_tokens(
            multi_unstake_result.farming_tokens_payment.amount,
            None,
            unlock_epoch,
        ) {
            Ok(unbond) => unbond,
            Err(e) => {
                return Err(e);
            },
        };
        self.produce_rewards_enabled = false;
        self.guild_closing = true;

        let remaining_rewards = self.reward_capacity.minus(&self.accumulated_rewards);
        self.withdraw_rewards_common(&remaining_rewards).unwrap();
        let ghost paid = factory@;
        if !remaining_rewards.is_zero() {
            factory.deposit_rewards_guild(own_address, self.reward_token_id,
                &remaining_rewards).unwrap();
        } else {
            factory.close_guild_no_rewards_remaining(own_address).unwrap();
        }
        proof {
            assert(paid.closes_guild(factory@, own_address, remaining_rewards@));
        }
        Ok(
            CloseGuildResult {
                unbond,
                base_rewards_payment: multi_unstake_result.base_rewards_payment,
                returned_rewards: remaining_rewards,
            },
        )
    }

    fn migrate_to_other_guild(
        &mut self,
        config: &mut GuildScConfig,
        factory: &mut GuildFactory,
        caller: Address,
        payments: &Vec<StakingFarmToken>,
        guild_address: Address,
        current_block_nonce: u64,
    ) -> (r: Result<MigrateToOtherFarmData, GuildError>) {
        match self.require_closing() {
            Err(e) => {
                return Err(e);
            },
            Ok(()) => {},
        }
        match config.require_not_globally_paused() {
            Err(e) => {
                return Err(e);
            },
            Ok(()) => {},
        }
        if caller == self.guild_master {
            return Err(GuildError::GuildMasterCannotMigrate);
        }
        if payments.len() == 0 {
            return Err(GuildError::EmptyPayments);
        }
        let total_farming_tokens = Self::sum_amounts(payments);
        let own_address = self.own_address;
        match config.require_guild_sc_caller(factory, own_address) {
            Err(e) => {
                return Err(e);
            },
            Ok(()) => {},
        }
        if config.total_staking_token_staked.less_than(&total_farming_tokens) {
            return Err(GuildError::NegativeResult);
        }
        let multi_unstake_result = match self.multi_unstake(
            config,
            factory,
            caller,
            payments,
            current_block_nonce,
        ) {
            Ok(result) => result,
            Err(e) => {
                return Err(e);
            },
        };
        proof {
            lemma_after_exit_account(
                old(self)@,
                old(config)@,
                old(factory)@,
                caller,
                positions_view(payments@),
                current_block_nonce,
            );
            assert(factory@.deployed_guilds == old(factory)@.deployed_guilds);
            assert(factory@.closed_guilds == old(factory)@.closed_guilds);
            assert(factory@.is_deployed(own_address) == old(factory)@.is_deployed(own_address));
        }
        self.call_decrease_total_staked_tokens(config, factory, &total_farming_tokens).unwrap();
        Ok(
            MigrateToOtherFarmData {
                guild_address,
                total_farming_tokens,
                base_rewards: multi_unstake_result.base_rewards_payment,
            },
        )
    }
}

} // verus!
