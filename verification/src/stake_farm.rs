//! Staking: staking tokens come in, and a position goes out.

use vstd::prelude::*;
use crate::call_config::CallConfigModule;
use crate::custom_rewards::CustomRewardsModule;
use crate::errors::GuildError;
use crate::farm_base::{
    all_positions_valid, amounts_sum, contract_state_error, lemma_merged_with, merged_with,
    positions_view, BaseFarmValidationModule,
};
use crate::farm_staking::{CloseGuildModule, FarmStaking, FarmStakingView};
use crate::guild_config::{
    is_guild_caller, GlobalConfigModule, GuildScConfig, GuildScConfigView, UNPAUSED,
};
use crate::guild_factory::{Address, GuildFactory, GuildFactoryView};
use crate::read_config::ReadConfigModule;
use crate::rewards::{FarmContract, FarmStakingWrapper, RewardsModule};
use crate::storage_cache::{StorageCache, StorageCacheView};
use crate::token_attributes::{
    EsdtTokenPayment, EsdtTokenPaymentView, FixedSupplyToken, StakingFarmToken,
    StakingFarmTokenAttributesView, StakingFarmTokenView,
};
use crate::tokens_per_tier::{TokensPerTier, TokensPerTierView};
use crate::total_tokens::TokenPerTierModule;

verus! {

impl FarmStakingView {
    /// Why a stake is rejected, if it is.
    pub open spec fn stake_error(
        self,
        config: GuildScConfigView,
        factory: GuildFactoryView,
        original_caller: Address,
        farming_token_payment: EsdtTokenPaymentView,
        additional_farm_tokens: Seq<StakingFarmTokenView>,
        current_block_nonce: u64,
    ) -> Option<GuildError> {
        let staked = TokensPerTierView { base: farming_token_payment.amount, compounded: 0 };
        if self.guild_closing {
            Some(GuildError::GuildClosing)
        } else if config.global_pause_status != UNPAUSED {
            Some(GuildError::GloballyPaused)
        } else if original_caller != self.guild_master && self.guild_master_tokens is None {
            Some(GuildError::GuildMasterMustStakeFirst)
        } else if contract_state_error(StorageCacheView::of(self)) is Some {
            contract_state_error(StorageCacheView::of(self))
        } else if farming_token_payment.token_identifier != self.farming_token_id
            || !all_positions_valid(additional_farm_tokens, self.farm_token_id.unwrap()) {
            Some(GuildError::BadPayments)
        } else if self.accrual_error(
            config.total_staking_token_staked,
            factory,
            current_block_nonce,
        ) is Some {
            self.accrual_error(config.total_staking_token_staked, factory, current_block_nonce)
        } else if self.total_staked_tokens() + farming_token_payment.amount
            > config.max_staked_tokens {
            Some(GuildError::MaxStakedExceeded)
        } else if !is_guild_caller(factory, self.own_address) {
            Some(GuildError::OnlyGuilds)
        } else if !self.with_tokens_added(original_caller, staked).over_min_stake(
            config,
            original_caller,
        ) {
            Some(GuildError::NotEnoughStake)
        } else {
            None
        }
    }

    /// The guild after `amount` was staked by `original_caller`: the accrual
    /// has happened, and the supply, the staked total and the caller's account
    /// have each grown by the amount.
    pub open spec fn after_stake(
        self,
        config: GuildScConfigView,
        factory: GuildFactoryView,
        original_caller: Address,
        amount: nat,
        current_block_nonce: u64,
    ) -> FarmStakingView {
        let accrued = self.accrued(config.total_staking_token_staked, factory, current_block_nonce);
        let committed = (StorageCacheView {
            farm_token_supply: accrued.farm_token_supply + amount,
            ..accrued
        }).committed_to(self);
        (FarmStakingView {
            total_base_staked_tokens: self.total_base_staked_tokens + amount,
            ..committed
        }).with_tokens_added(
            original_caller,
            TokensPerTierView { base: amount, compounded: 0 },
        ).with_config(config)
    }

    /// The position that a stake hands out: a fresh one for the staked amount,
    /// with the checkpoint at the accumulator after the accrual, merged with
    /// the positions that were handed in.
    pub open spec fn staked_position(
        self,
        config: GuildScConfigView,
        factory: GuildFactoryView,
        original_caller: Address,
        amount: nat,
        additional_farm_tokens: Seq<StakingFarmTokenView>,
        current_block_nonce: u64,
    ) -> StakingFarmTokenAttributesView {
        let accrued = self.accrued(config.total_staking_token_staked, factory, current_block_nonce);
        merged_with(
            StakingFarmTokenAttributesView {
                reward_per_share: accrued.rps_of(self, original_caller),
                compounded_reward: 0,
                current_farm_amount: amount,
            },
            additional_farm_tokens,
            0,
            additional_farm_tokens.len() as int,
        )
    }
}

impl GuildScConfigView {
    /// The configuration after a guild reported `amount` more.
    pub open spec fn with_more_staked(self, amount: nat) -> GuildScConfigView {
        GuildScConfigView {
            total_staking_token_staked: self.total_staking_token_staked + amount,
            ..self
        }
    }

    /// The configuration after a guild reported `amount` less.
    pub open spec fn with_less_staked(self, amount: nat) -> GuildScConfigView {
        GuildScConfigView {
            total_staking_token_staked: (self.total_staking_token_staked - amount) as nat,
            ..self
        }
    }
}

/// Staking.
pub trait StakeFarmModule: View<V = FarmStakingView> {
    /// On whose behalf a call is made. Only the factory may name another
    /// account than itself.
    fn get_orig_caller_from_opt(&self, caller: Address, opt_original_caller: Option<Address>)
        -> (r: Result<Address, GuildError>)
        ensures
            match opt_original_caller {
                Some(original_caller) => if caller == self@.owner {
                    r == Ok::<Address, GuildError>(original_caller)
                } else {
                    r == Err::<Address, GuildError>(GuildError::OriginalCallerNotAllowed)
                },
                None => r == Ok::<Address, GuildError>(caller),
            },
    ;

    /// Stakes `farming_token_payment` for `original_caller` and hands out a
    /// position for it, merged with the positions in
    /// `additional_farm_tokens`.
    ///
    /// A closing guild takes no stake, and users stake only after the guild
    /// master has. The guild may not hold more than the configuration allows,
    /// and the caller not less than the minimum. The stake is reported to the
    /// shared configuration.
    fn stake_farm_common(
        &mut self,
        config: &mut GuildScConfig,
        factory: &mut GuildFactory,
        original_caller: Address,
        farming_token_payment: &EsdtTokenPayment,
        additional_farm_tokens: &Vec<StakingFarmToken>,
        current_block_nonce: u64,
    ) -> (r: Result<StakingFarmToken, GuildError>)
        requires
            old(self)@.wf(),
        ensures
            final(self)@.wf(),
            match r {
                Ok(new_farm_token) => {
                    &&& old(self)@.stake_error(
                        old(config)@,
                        old(factory)@,
                        original_caller,
                        farming_token_payment@,
                        positions_view(additional_farm_tokens@),
                        current_block_nonce,
                    ) is None
                    &&& final(self)@ == old(self)@.after_stake(
                        old(config)@,
                        old(factory)@,
                        original_caller,
                        farming_token_payment@.amount,
                        current_block_nonce,
                    )
                    &&& final(config)@ == old(config)@.with_more_staked(
                        farming_token_payment@.amount,
                    )
                    &&& final(factory)@ == old(self)@.factory_after_accrual(
                        old(config)@,
                        old(factory)@,
                        current_block_nonce,
                    )
                    &&& new_farm_token@.attributes == old(self)@.staked_position(
                        old(config)@,
                        old(factory)@,
                        original_caller,
                        farming_token_payment@.amount,
                        positions_view(additional_farm_tokens@),
                        current_block_nonce,
                    )
                    &&& new_farm_token@.payment == (EsdtTokenPaymentView {
                        token_identifier: old(self)@.farm_token_id.unwrap(),
                        token_nonce: 0,
                        amount: farming_token_payment@.amount + amounts_sum(
                            positions_view(additional_farm_tokens@),
                            additional_farm_tokens@.len() as int,
                        ),
                    })
                    &&& new_farm_token@.attributes.wf()
                    &&& new_farm_token@.attributes.current_farm_amount
                        == new_farm_token@.payment.amount
                },
                Err(e) => {
                    &&& old(self)@.stake_error(
                        old(config)@,
                        old(factory)@,
                        original_caller,
                        farming_token_payment@,
                        positions_view(additional_farm_tokens@),
                        current_block_nonce,
                    ) == Some(e)
                    &&& final(self)@ == old(self)@
                    &&& final(config)@ == old(config)@
                    &&& final(factory)@ == old(factory)@
                },
            },
    ;

    /// Stakes for the caller, or, where the factory calls, for the account
    /// that it names.
    fn stake_farm_endpoint(
        &mut self,
        config: &mut GuildScConfig,
        factory: &mut GuildFactory,
        caller: Address,
        opt_original_caller: Option<Address>,
        farming_token_payment: &EsdtTokenPayment,
        additional_farm_tokens: &Vec<StakingFarmToken>,
        current_block_nonce: u64,
    ) -> (r: Result<StakingFarmToken, GuildError>)
        requires
            old(self)@.wf(),
        ensures
            final(self)@.wf(),
            opt_original_caller is Some && caller != old(self)@.owner ==> r is Err && r->Err_0
                == GuildError::OriginalCallerNotAllowed && final(self)@ == old(self)@
                    && final(config)@ == old(config)@ && final(factory)@ == old(factory)@,
            opt_original_caller is None || caller == old(self)@.owner ==> {
                let original_caller = match opt_original_caller {
                    Some(named) => named,
                    None => caller,
                };
                match r {
                    Ok(new_farm_token) => {
                        &&& old(self)@.stake_error(
                            old(config)@,
                            old(factory)@,
                            original_caller,
                            farming_token_payment@,
                            positions_view(additional_farm_tokens@),
                            current_block_nonce,
                        ) is None
                        &&& final(self)@ == old(self)@.after_stake(
                            old(config)@,
                            old(factory)@,
                            original_caller,
                            farming_token_payment@.amount,
                            current_block_nonce,
                        )
                        &&& final(config)@ == old(config)@.with_more_staked(
                            farming_token_payment@.amount,
                        )
                        &&& final(factory)@ == old(self)@.factory_after_accrual(
                            old(config)@,
                            old(factory)@,
                            current_block_nonce,
                        )
                        &&& new_farm_token@.attributes == old(self)@.staked_position(
                            old(config)@,
                            old(factory)@,
                            original_caller,
                            farming_token_payment@.amount,
                            positions_view(additional_farm_tokens@),
                            current_block_nonce,
                        )
                        &&& new_farm_token@.payment == (EsdtTokenPaymentView {
                            token_identifier: old(self)@.farm_token_id.unwrap(),
                            token_nonce: 0,
                            amount: new_farm_token@.attributes.current_farm_amount,
                        })
                        &&& new_farm_token@.attributes.wf()
                    },
                    Err(e) => {
                        &&& old(self)@.stake_error(
                            old(config)@,
                            old(factory)@,
                            original_caller,
                            farming_token_payment@,
                            positions_view(additional_farm_tokens@),
                            current_block_nonce,
                        ) == Some(e)
                        &&& final(self)@ == old(self)@
                        &&& final(config)@ == old(config)@
                        &&& final(factory)@ == old(factory)@
                    },
                }
            },
    ;
}

impl StakeFarmModule for FarmStaking {
    fn get_orig_caller_from_opt(&self, caller: Address, opt_original_caller: Option<Address>)
        -> (r: Result<Address, GuildError>) {
        match opt_original_caller {
            Some(original_caller) => {
                if caller != self.owner {
                    return Err(GuildError::OriginalCallerNotAllowed);
                }
                Ok(original_caller)
            },
            None => Ok(caller),
        }
    }

    fn stake_farm_common(
        &mut self,
        config: &mut GuildScConfig,
        factory: &mut GuildFactory,
        original_caller: Address,
        farming_token_payment: &EsdtTokenPayment,
        additional_farm_tokens: &Vec<StakingFarmToken>,
        current_block_nonce: u64,
    ) -> (r: Result<StakingFarmToken, GuildError>) {
        match self.require_not_closing() {
            Err(e) => {
                return Err(e);
            },
            Ok(()) => {},
        }
        match config.require_not_globally_paused() {
            Err(e) => {
                return Err(e);
            },
            Ok(()) => {},
        }
        if original_caller != self.guild_master && self.guild_master_tokens.is_none() {
            return Err(GuildError::GuildMasterMustStakeFirst);
        }
        let mut storage_cache = StorageCache::new(self);
        let farm_token_id = match Self::validate_contract_state(&storage_cache) {
            Ok(farm_token_id) => farm_token_id,
            Err(e) => {
                return Err(e);
            },
        };
        if farming_token_payment.token_identifier != storage_cache.farming_token_id
            || !Self::check_positions(additional_farm_tokens, farm_token_id) {
            return Err(GuildError::BadPayments);
        }
        match FarmStakingWrapper::generate_aggregated_rewards(
            self,
            &mut storage_cache,
            config,
            factory,
            current_block_nonce,
        ) {
            Err(e) => {
                return Err(e);
            },
            Ok(()) => {},
        }
        let enter_farm_amount = farming_token_payment.amount.duplicate();
        storage_cache.farm_token_supply = storage_cache.farm_token_supply.plus(&enter_farm_amount);

        let rps = self.get_rps_by_user(original_caller, &storage_cache).duplicate();
        let base_attributes = FarmStakingWrapper::create_enter_farm_initial_attributes(
            enter_farm_amount.duplicate(),
            rps,
        );
        proof {
            lemma_merged_with(
                base_attributes@,
                positions_view(additional_farm_tokens@),
                farm_token_id,
                0,
                additional_farm_tokens@.len() as int,
            );
        }
        let new_token_attributes = Self::merge_attributes_from_payments(
            base_attributes,
            additional_farm_tokens,
            0,
            farm_token_id,
        );

        let staked = TokensPerTier::new_base(enter_farm_amount.duplicate());
        let new_total = self.total_base_staked_tokens.plus(&self.total_compounded_tokens).plus(
            &enter_farm_amount,
        );
        if !new_total.at_most(&config.max_staked_tokens) {
            return Err(GuildError::MaxStakedExceeded);
        }
        match config.require_guild_sc_caller(factory, self.own_address) {
            Err(e) => {
                return Err(e);
            },
            Ok(()) => {},
        }
        let new_stake = self.get_user_staked_tokens(original_caller).plus(&staked).total();
        if !new_stake.is_zero() {
            let min_stake = self.get_min_stake_for_user(config, original_caller);
            if !min_stake.at_most(&new_stake) {
                return Err(GuildError::NotEnoughStake);
            }
        }
        let new_farm_token = StakingFarmToken {
            payment: EsdtTokenPayment::new(farm_token_id, 0,
                new_token_attributes.get_total_supply()),
            attributes: new_token_attributes,
        };

        storage_cache.commit(self, factory);
        self.update_all(config);
        self.add_total_staked_tokens(config, &staked).unwrap();
        self.add_tokens(original_caller, &staked);
        proof {
            assert(factory@.deployed_guilds == old(factory)@.deployed_guilds);
            assert(factory@.closed_guilds == old(factory)@.closed_guilds);
            assert(factory@.is_deployed(self.own_address) == old(factory)@.is_deployed(
                self.own_address,
            ));
        }
        self.call_increase_total_staked_tokens(config, factory, &enter_farm_amount).unwrap();
        proof {
            assert(self@ =~= old(self)@.after_stake(
                old(config)@,
                old(factory)@,
                original_caller,
                farming_token_payment@.amount,
                current_block_nonce,
            ));
        }
        Ok(new_farm_token)
    }

    fn stake_farm_endpoint(
        &mut self,
        config: &mut GuildScConfig,
        factory: &mut GuildFactory,
        caller: Address,
        opt_original_caller: Option<Address>,
        farming_token_payment: &EsdtTokenPayment,
        additional_farm_tokens: &Vec<StakingFarmToken>,
        current_block_nonce: u64,
    ) -> (r: Result<StakingFarmToken, GuildError>) {
        let original_caller = match self.get_orig_caller_from_opt(caller, opt_original_caller) {
            Ok(original_caller) => original_caller,
            Err(e) => {
                return Err(e);
            },
        };
        self.stake_farm_common(
            config,
            factory,
            original_caller,
            farming_token_payment,
            additional_farm_tokens,
            current_block_nonce,
        )
    }
}

} // verus!
