//! A guild: what it holds, what must hold of it, and the calls that neither
//! stake nor unstake.

use vstd::prelude::*;
use std::collections::HashMap;
use crate::amount::Amount;
use crate::custom_rewards::CustomRewardsModule;
use crate::errors::GuildError;
use crate::farm_base::{
    all_positions_valid, amounts_sum, lemma_merged_with, merged_with, positions_view,
    BaseFarmValidationModule,
};
use crate::guild_config::{Epoch, GuildScConfig, GuildScConfigView};
use crate::guild_factory::{Address, GuildFactory, GuildFactoryView};
use crate::rewards::{spec_calculate_rewards, FarmContract, FarmStakingWrapper};
use crate::storage_cache::{StorageCache, StorageCacheView};
use crate::tier_types::{
    guild_master_tiers_view, GuildMasterRewardTier, GuildMasterRewardTierView, UserRewardTier,
};
use crate::token_attributes::{
    lemma_part_is_well_formed, EsdtTokenPayment, EsdtTokenPaymentView, FixedSupplyToken,
    StakingFarmToken, StakingFarmTokenAttributes, TokenIdentifier,
};
use crate::tokens_per_tier::{TokensPerTier, TokensPerTierView};

verus! {

broadcast use vstd::std_specs::hash::group_hash_axioms;

/// Whether a guild takes calls.
#[derive(Clone, Copy, PartialEq, Eq, Structural, Debug)]
pub enum State {
    Inactive,
    Active,
    PartialActive,
}

pub struct FarmStaking {
    pub own_address: Address,
    /// The factory that deployed the guild.
    pub owner: Address,
    pub guild_master: Address,
    pub state: State,
    pub farming_token_id: TokenIdentifier,
    pub reward_token_id: TokenIdentifier,
    pub farm_token_id: Option<TokenIdentifier>,
    pub unbond_token_id: Option<TokenIdentifier>,
    pub farm_token_transfer_role_set: bool,
    pub unbond_token_transfer_role_set: bool,
    pub division_safety_constant: Amount,
    pub farm_token_supply: Amount,
    pub reward_reserve: Amount,
    pub accumulated_rewards: Amount,
    pub reward_capacity: Amount,
    pub user_rps: Amount,
    pub guild_master_rps: Amount,
    pub last_reward_block_nonce: u64,
    pub produce_rewards_enabled: bool,
    pub guild_closing: bool,
    pub total_base_staked_tokens: Amount,
    pub total_compounded_tokens: Amount,
    pub guild_master_tokens: Option<TokensPerTier>,
    pub user_tokens: HashMap<Address, TokensPerTier>,
    pub internal_seconds_per_block: u64,
    pub per_block_reward_amount: Amount,
    pub internal_guild_master_tiers: Vec<GuildMasterRewardTier>,
    pub internal_user_tiers: Vec<UserRewardTier>,
    pub internal_total_staking_token_minted: Amount,
}

pub struct FarmStakingView {
    pub own_address: Address,
    pub owner: Address,
    pub guild_master: Address,
    pub state: State,
    pub farming_token_id: TokenIdentifier,
    pub reward_token_id: TokenIdentifier,
    pub farm_token_id: Option<TokenIdentifier>,
    pub unbond_token_id: Option<TokenIdentifier>,
    pub farm_token_transfer_role_set: bool,
    pub unbond_token_transfer_role_set: bool,
    pub division_safety_constant: nat,
    pub farm_token_supply: nat,
    pub reward_reserve: nat,
    pub accumulated_rewards: nat,
    pub reward_capacity: nat,
    pub user_rps: nat,
    pub guild_master_rps: nat,
    pub last_reward_block_nonce: u64,
    pub produce_rewards_enabled: bool,
    pub guild_closing: bool,
    pub total_base_staked_tokens: nat,
    pub total_compounded_tokens: nat,
    pub guild_master_tokens: Option<TokensPerTierView>,
    pub user_tokens: Map<Address, TokensPerTierView>,
    pub internal_seconds_per_block: u64,
    pub per_block_reward_amount: nat,
    pub internal_guild_master_tiers: Seq<GuildMasterRewardTierView>,
    pub internal_user_tiers: Seq<UserRewardTier>,
    pub internal_total_staking_token_minted: nat,
}

pub open spec fn option_tokens_view(tokens: Option<TokensPerTier>) -> Option<TokensPerTierView> {
    match tokens {
        Some(t) => Some(t@),
        None => None,
    }
}

pub open spec fn user_tokens_view(tokens: Map<Address, TokensPerTier>) -> Map<
    Address,
    TokensPerTierView,
> {
    tokens.map_values(|t: TokensPerTier| t@)
}

impl View for FarmStaking {
    type V = FarmStakingView;

    open spec fn view(&self) -> FarmStakingView {
        FarmStakingView {
            own_address: self.own_address,
            owner: self.owner,
            guild_master: self.guild_master,
            state: self.state,
            farming_token_id: self.farming_token_id,
            reward_token_id: self.reward_token_id,
            farm_token_id: self.farm_token_id,
            unbond_token_id: self.unbond_token_id,
            farm_token_transfer_role_set: self.farm_token_transfer_role_set,
            unbond_token_transfer_role_set: self.unbond_token_transfer_role_set,
            division_safety_constant: self.division_safety_constant@,
            farm_token_supply: self.farm_token_supply@,
            reward_reserve: self.reward_reserve@,
            accumulated_rewards: self.accumulated_rewards@,
            reward_capacity: self.reward_capacity@,
            user_rps: self.user_rps@,
            guild_master_rps: self.guild_master_rps@,
            last_reward_block_nonce: self.last_reward_block_nonce,
            produce_rewards_enabled: self.produce_rewards_enabled,
            guild_closing: self.guild_closing,
            total_base_staked_tokens: self.total_base_staked_tokens@,
            total_compounded_tokens: self.total_compounded_tokens@,
            guild_master_tokens: option_tokens_view(self.guild_master_tokens),
            user_tokens: user_tokens_view(self.user_tokens@),
            internal_seconds_per_block: self.internal_seconds_per_block,
            per_block_reward_amount: self.per_block_reward_amount@,
            internal_guild_master_tiers: guild_master_tiers_view(self.internal_guild_master_tiers@),
            internal_user_tiers: self.internal_user_tiers@,
            internal_total_staking_token_minted: self.internal_total_staking_token_minted@,
        }
    }
}

impl FarmStakingView {
    /// A guild that has just been deployed: inactive, without tokens of its
    /// own, with nothing staked and nothing accrued. Its rewards are paid in
    /// the staking token.
    pub open spec fn new_guild(
        own_address: Address,
        owner: Address,
        farming_token_id: TokenIdentifier,
        division_safety_constant: nat,
        guild_master: Address,
    ) -> FarmStakingView {
        FarmStakingView {
            own_address,
            owner,
            guild_master,
            state: State::Inactive,
            farming_token_id,
            reward_token_id: farming_token_id,
            farm_token_id: None,
            unbond_token_id: None,
            farm_token_transfer_role_set: false,
            unbond_token_transfer_role_set: false,
            division_safety_constant,
            farm_token_supply: 0,
            reward_reserve: 0,
            accumulated_rewards: 0,
            reward_capacity: 0,
            user_rps: 0,
            guild_master_rps: 0,
            last_reward_block_nonce: 0,
            produce_rewards_enabled: false,
            guild_closing: false,
            total_base_staked_tokens: 0,
            total_compounded_tokens: 0,
            guild_master_tokens: None,
            user_tokens: Map::empty(),
            internal_seconds_per_block: 0,
            per_block_reward_amount: 0,
            internal_guild_master_tiers: Seq::empty(),
            internal_user_tiers: Seq::empty(),
            internal_total_staking_token_minted: 0,
        }
    }

    /// Everything that is staked, by the master and by the users.
    pub open spec fn total_staked_tokens(self) -> nat {
        self.total_base_staked_tokens + self.total_compounded_tokens
    }

    /// What the guild master has staked; nothing before the first stake.
    pub open spec fn master_tokens(self) -> TokensPerTierView {
        match self.guild_master_tokens {
            Some(tokens) => tokens,
            None => TokensPerTierView::zero(),
        }
    }

    /// What all users together have staked.
    pub open spec fn users_tokens(self) -> TokensPerTierView {
        TokensPerTierView {
            base: (self.total_base_staked_tokens - self.master_tokens().base) as nat,
            compounded: (self.total_compounded_tokens - self.master_tokens().compounded) as nat,
        }
    }

    /// What `user` has staked.
    pub open spec fn tokens_of(self, user: Address) -> TokensPerTierView {
        if user == self.guild_master {
            self.master_tokens()
        } else if self.user_tokens.contains_key(user) {
            self.user_tokens[user]
        } else {
            TokensPerTierView::zero()
        }
    }

    /// The accumulator that the positions of `user` are measured against.
    pub open spec fn rps_of(self, user: Address) -> nat {
        if user != self.guild_master {
            self.user_rps
        } else {
            self.guild_master_rps
        }
    }

    /// What the pool that `user` belongs to has staked: the guild master is a
    /// pool of its own, and the users are the other.
    pub open spec fn pool_of(self, user: Address) -> TokensPerTierView {
        if user == self.guild_master {
            self.master_tokens()
        } else {
            self.users_tokens()
        }
    }

    /// The guild master's stake is part of what is staked in the guild.
    pub open spec fn pools_wf(self) -> bool {
        &&& self.master_tokens().base <= self.total_base_staked_tokens
        &&& self.master_tokens().compounded <= self.total_compounded_tokens
    }

    /// The guild after `tokens` were taken out of the pool of `user`.
    pub open spec fn with_pool_reduced(self, user: Address, tokens: TokensPerTierView)
        -> FarmStakingView {
        let pool = self.pool_of(user);
        let reduced = pool.without(tokens);
        FarmStakingView {
            total_base_staked_tokens: (self.total_base_staked_tokens - pool.base
                + reduced.base) as nat,
            total_compounded_tokens: (self.total_compounded_tokens - pool.compounded
                + reduced.compounded) as nat,
            ..self
        }
    }

    /// What must hold of a guild at the start and at the end of every call:
    /// the supply of position tokens is what the accounting says is staked,
    /// the master's stake is part of it, no more rewards were accrued than the
    /// capacity allows, and reward shares can be scaled.
    pub open spec fn wf(self) -> bool {
        &&& self.division_safety_constant > 0
        &&& self.accumulated_rewards <= self.reward_capacity
        &&& self.farm_token_supply == self.total_staked_tokens()
        &&& self.pools_wf()
    }

    /// The guild with `tokens` more on the account of `user`.
    pub open spec fn with_tokens_added(self, user: Address, tokens: TokensPerTierView)
        -> FarmStakingView {
        if user == self.guild_master {
            FarmStakingView {
                guild_master_tokens: Some(self.master_tokens().plus(tokens)),
                ..self
            }
        } else {
            FarmStakingView {
                user_tokens: self.user_tokens.insert(user, self.tokens_of(user).plus(tokens)),
                ..self
            }
        }
    }

    /// The guild with `tokens` less on the account of `user`.
    pub open spec fn with_tokens_removed(self, user: Address, tokens: TokensPerTierView)
        -> FarmStakingView {
        if user == self.guild_master {
            FarmStakingView {
                guild_master_tokens: Some(self.master_tokens().without(tokens)),
                ..self
            }
        } else {
            FarmStakingView {
                user_tokens: self.user_tokens.insert(user, self.tokens_of(user).without(tokens)),
                ..self
            }
        }
    }

    /// The guild with its copies of the shared configuration brought up to
    /// date.
    pub open spec fn with_config(self, config: GuildScConfigView) -> FarmStakingView {
        FarmStakingView {
            internal_seconds_per_block: config.seconds_per_block,
            per_block_reward_amount: config.per_block_reward_amount,
            internal_guild_master_tiers: config.guild_master_tiers,
            internal_user_tiers: config.user_tiers,
            internal_total_staking_token_minted: config.total_staking_token_minted,
            ..self
        }
    }

    /// The least that `user` may keep staked, other than nothing.
    pub open spec fn min_stake_for(self, config: GuildScConfigView, user: Address) -> nat {
        if user != self.guild_master {
            config.min_stake_user
        } else {
            config.min_stake_guild_master
        }
    }

    /// Whether what `user` has staked is nothing, or at least the minimum.
    pub open spec fn over_min_stake(self, config: GuildScConfigView, user: Address) -> bool {
        self.tokens_of(user).total() == 0 || self.tokens_of(user).total() >= self.min_stake_for(
            config,
            user,
        )
    }

    /// How long what `user` unstakes stays locked.
    pub open spec fn min_unbond_epochs_for(self, config: GuildScConfigView,
        user: Address) -> Epoch {
        if user != self.guild_master {
            config.min_unbond_epochs_user
        } else {
            config.min_unbond_epochs_guild_master
        }
    }
}

impl FarmStakingView {
    /// Why a top-up is rejected, if it is.
    pub open spec fn top_up_error(
        self,
        config: GuildScConfigView,
        factory: GuildFactoryView,
        payment_token: TokenIdentifier,
        current_block_nonce: u64,
    ) -> Option<GuildError> {
        if self.guild_closing {
            Some(GuildError::GuildClosing)
        } else if self.accrual_error(
            config.total_staking_token_staked,
            factory,
            current_block_nonce,
        ) is Some {
            self.accrual_error(config.total_staking_token_staked, factory, current_block_nonce)
        } else if payment_token != self.reward_token_id {
            Some(GuildError::InvalidToken)
        } else {
            None
        }
    }

    /// The guild after a top-up: the accrual has happened, and the capacity
    /// has grown by the payment.
    pub open spec fn after_top_up(
        self,
        config: GuildScConfigView,
        factory: GuildFactoryView,
        payment_amount: nat,
        current_block_nonce: u64,
    ) -> FarmStakingView {
        let accrued = self.accrued(config.total_staking_token_staked, factory, current_block_nonce);
        (StorageCacheView {
            reward_capacity: accrued.reward_capacity + payment_amount,
            ..accrued
        }).committed_to(self).with_config(config)
    }

    /// Why the guild is not ready to be resumed, if it is not.
    pub open spec fn local_roles_error(self) -> Option<GuildError> {
        if self.farm_token_id is None {
            Some(GuildError::NoFarmToken)
        } else if self.unbond_token_id is None {
            Some(GuildError::InvalidToken)
        } else if !self.farm_token_transfer_role_set {
            Some(GuildError::FarmTokenTransferRoleNotSet)
        } else if !self.unbond_token_transfer_role_set {
            Some(GuildError::UnbondTokenTransferRoleNotSet)
        } else {
            None
        }
    }
}

impl FarmStaking {
    /// A new guild of `guild_master`: inactive, empty, and with the shared
    /// configuration as it stands. The division safety constant must not be
    /// zero.
    pub fn init(
        own_address: Address,
        owner: Address,
        farming_token_id: TokenIdentifier,
        division_safety_constant: Amount,
        config: &GuildScConfig,
        guild_master: Address,
    ) -> (r: Result<FarmStaking, GuildError>)
        ensures
            division_safety_constant@ == 0 ==> r is Err && r->Err_0 == GuildError::ZeroAmount,
            division_safety_constant@ > 0 ==> r is Ok && r->Ok_0@.wf()
                && r->Ok_0@ == FarmStakingView::new_guild(
                own_address,
                owner,
                farming_token_id,
                division_safety_constant@,
                guild_master,
            ).with_config(config@),
    {
        if division_safety_constant.is_zero() {
            return Err(GuildError::ZeroAmount);
        }
        let mut guild = FarmStaking {
            own_address,
            owner,
            guild_master,
            state: State::Inactive,
            farming_token_id,
            reward_token_id: farming_token_id,
            farm_token_id: None,
            unbond_token_id: None,
            farm_token_transfer_role_set: false,
            unbond_token_transfer_role_set: false,
            division_safety_constant,
            farm_token_supply: Amount::zero(),
            reward_reserve: Amount::zero(),
            accumulated_rewards: Amount::zero(),
            reward_capacity: Amount::zero(),
            user_rps: Amount::zero(),
            guild_master_rps: Amount::zero(),
            last_reward_block_nonce: 0,
            produce_rewards_enabled: false,
            guild_closing: false,
            total_base_staked_tokens: Amount::zero(),
            total_compounded_tokens: Amount::zero(),
            guild_master_tokens: None,
            user_tokens: HashMap::new(),
            internal_seconds_per_block: 0,
            per_block_reward_amount: Amount::zero(),
            internal_guild_master_tiers: Vec::new(),
            internal_user_tiers: Vec::new(),
            internal_total_staking_token_minted: Amount::zero(),
        };
        proof {
            assert(guild@.user_tokens =~= Map::empty());
            assert(guild@.internal_guild_master_tiers =~= Seq::empty());
        }
        guild.update_all(config);
        Ok(guild)
    }

    /// Whether the guild is in a state that calls may start from.
    pub fn is_well_formed(&self) -> (r: bool)
        ensures
            r == self@.wf(),
    {
        let staked = self.total_base_staked_tokens.plus(&self.total_compounded_tokens);
        let master_covered = match &self.guild_master_tokens {
            Some(tokens) => tokens.base.at_most(&self.total_base_staked_tokens)
                && tokens.compounded.at_most(&self.total_compounded_tokens),
            None => true,
        };
        !self.division_safety_constant.is_zero() && self.accumulated_rewards.at_most(
            &self.reward_capacity,
        ) && self.farm_token_supply.same_as(&staked) && master_covered
    }
}

/// The end of a guild's life: once it is closing, it stays closing.
pub trait CloseGuildModule: View<V = FarmStakingView> {
    fn require_not_closing(&self) -> (r: Result<(), GuildError>)
        ensures
            !self@.guild_closing ==> r == Ok::<(), GuildError>(()),
            self@.guild_closing ==> r == Err::<(), GuildError>(GuildError::GuildClosing),
    ;

    fn require_closing(&self) -> (r: Result<(), GuildError>)
        ensures
            self@.guild_closing ==> r == Ok::<(), GuildError>(()),
            !self@.guild_closing ==> r == Err::<(), GuildError>(GuildError::GuildNotClosing),
    ;
}

impl CloseGuildModule for FarmStaking {
    fn require_not_closing(&self) -> (r: Result<(), GuildError>) {
        if self.guild_closing {
            Err(GuildError::GuildClosing)
        } else {
            Ok(())
        }
    }

    fn require_closing(&self) -> (r: Result<(), GuildError>) {
        if self.guild_closing {
            Ok(())
        } else {
            Err(GuildError::GuildNotClosing)
        }
    }
}

impl FarmStaking {
    /// What a position of `user` would be paid if it were claimed now. Nothing
    /// is changed.
    pub fn calculate_rewards_for_given_position(
        &self,
        config: &GuildScConfig,
        factory: &GuildFactory,
        user: Address,
        farm_token_amount: &Amount,
        attributes: &StakingFarmTokenAttributes,
        current_block_nonce: u64,
    ) -> (r: Result<Amount, GuildError>)
        requires
            self@.wf(),
        ensures
            match r {
                Ok(rewards) => self@.accrual_error(
                    config@.total_staking_token_staked,
                    factory@,
                    current_block_nonce,
                ) is None && rewards@ == spec_calculate_rewards(
                    farm_token_amount@,
                    attributes@.reward_per_share,
                    self@.accrued(
                        config@.total_staking_token_staked,
                        factory@,
                        current_block_nonce,
                    ).rps_of(self@, user),
                    self@.division_safety_constant,
                ),
                Err(e) => self@.accrual_error(
                    config@.total_staking_token_staked,
                    factory@,
                    current_block_nonce,
                ) == Some(e),
            },
    {
        let mut storage_cache = StorageCache::new(self);
        match FarmStakingWrapper::generate_aggregated_rewards(
            self,
            &mut storage_cache,
            config,
            factory,
            current_block_nonce,
        ) {
            Err(e) => {
                return Err(e);
            },
            Ok(()) => {},
        }
        Ok(
            FarmStakingWrapper::calculate_rewards(
                self,
                user,
                farm_token_amount,
                attributes,
                &storage_cache,
            ),
        )
    }

    /// Merges positions into one. The amounts add up, and the checkpoint of
    /// the new position is the average of theirs by amount, rounded up at
    /// every step. Nothing is paid and nothing is changed in the guild.
    pub fn merge_farm_tokens_endpoint(&self, payments: &Vec<StakingFarmToken>) -> (r: Result<
        StakingFarmToken,
        GuildError,
    >)
        ensures
            self@.guild_closing ==> r is Err && r->Err_0 == GuildError::GuildClosing,
            !self@.guild_closing && payments@.len() == 0 ==> r is Err && r->Err_0
                == GuildError::EmptyPayments,
            !self@.guild_closing && payments@.len() > 0 && self@.farm_token_id is None ==> r is Err
                && r->Err_0 == GuildError::NoFarmToken,
            !self@.guild_closing && payments@.len() > 0 && self@.farm_token_id is Some
                && !all_positions_valid(positions_view(payments@), self@.farm_token_id.unwrap())
                ==> r is Err && r->Err_0 == GuildError::BadPayments,
            !self@.guild_closing && payments@.len() > 0 && self@.farm_token_id is Some
                && all_positions_valid(positions_view(payments@), self@.farm_token_id.unwrap())
                ==> r is Ok && r->Ok_0@.attributes == merged_with(
                positions_view(payments@)[0].part(),
                positions_view(payments@),
                1,
                payments@.len() as int,
            ) && r->Ok_0@.payment == (EsdtTokenPaymentView {
                token_identifier: self@.farm_token_id.unwrap(),
                token_nonce: 0,
                amount: amounts_sum(positions_view(payments@), payments@.len() as int),
            }) && r->Ok_0@.attributes.wf(),
    {
        match self.require_not_closing() {
            Err(e) => {
                return Err(e);
            },
            Ok(()) => {},
        }
        if payments.len() == 0 {
            return Err(GuildError::EmptyPayments);
        }
        let farm_token_id = match self.farm_token_id {
            Some(id) => id,
            None => {
                return Err(GuildError::NoFarmToken);
            },
        };
        if !Self::check_positions(payments, farm_token_id) {
            return Err(GuildError::BadPayments);
        }
        let first = &payments[0];
        assert(positions_view(payments@)[0] == first@);
        assert(first@.wf());
        let base_attributes = first.attributes.duplicate().into_part(&first.payment.amount);
        proof {
            lemma_part_is_well_formed(first@.attributes, first@.payment.amount);
            lemma_merged_with(
                base_attributes@,
                positions_view(payments@),
                farm_token_id,
                1,
                payments@.len() as int,
            );
            assert(amounts_sum(positions_view(payments@), 0) == 0);
            assert(amounts_sum(positions_view(payments@), 1) == first@.payment.amount);
        }
        let output_attributes = Self::merge_attributes_from_payments(
            base_attributes,
            payments,
            1,
            farm_token_id,
        );
        let new_token_amount = output_attributes.get_total_supply();
        Ok(
            StakingFarmToken {
                payment: EsdtTokenPayment::new(farm_token_id, 0, new_token_amount),
                attributes: output_attributes,
            },
        )
    }

    /// Whether the guild has both of its tokens and may transfer them.
    pub fn check_local_roles_set(&self) -> (r: Result<(), GuildError>)
        ensures
            match r {
                Ok(()) => self@.local_roles_error() is None,
                Err(e) => self@.local_roles_error() == Some(e),
            },
    {
        if self.farm_token_id.is_none() {
            return Err(GuildError::NoFarmToken);
        }
        if self.unbond_token_id.is_none() {
            return Err(GuildError::InvalidToken);
        }
        if !self.farm_token_transfer_role_set {
            return Err(GuildError::FarmTokenTransferRoleNotSet);
        }
        if !self.unbond_token_transfer_role_set {
            return Err(GuildError::UnbondTokenTransferRoleNotSet);
        }
        Ok(())
    }

    /// Lets the guild take calls.
    pub fn resume(&mut self)
        ensures
            final(self)@ == (FarmStakingView { state: State::Active, ..old(self)@ }),
    {
        self.state = State::Active;
    }

    /// Stops the guild from taking calls.
    pub fn pause(&mut self)
        ensures
            final(self)@ == (FarmStakingView { state: State::Inactive, ..old(self)@ }),
    {
        self.state = State::Inactive;
    }

    /// Adds a payment in the reward token to the capacity of the guild.
    pub fn top_up_rewards(
        &mut self,
        config: &GuildScConfig,
        factory: &mut GuildFactory,
        payment_token: TokenIdentifier,
        payment_amount: &Amount,
        current_block_nonce: u64,
    ) -> (r: Result<(), GuildError>)
        requires
            old(self)@.wf(),
        ensures
            final(self)@.wf(),
            match r {
                Ok(()) => {
                    &&& old(self)@.top_up_error(
                        config@,
                        old(factory)@,
                        payment_token,
                        current_block_nonce,
                    ) is None
                    &&& final(self)@ == old(self)@.after_top_up(
                        config@,
                        old(factory)@,
                        payment_amount@,
                        current_block_nonce,
                    )
                    &&& final(factory)@ == old(self)@.factory_after_accrual(
                        config@,
                        old(factory)@,
                        current_block_nonce,
                    )
                },
                Err(e) => {
                    &&& old(self)@.top_up_error(
                        config@,
                        old(factory)@,
                        payment_token,
                        current_block_nonce,
                    ) == Some(e)
                    &&& final(self)@ == old(self)@
                    &&& final(factory)@ == old(factory)@
                },
            },
    {
        match self.require_not_closing() {
            Err(e) => {
                return Err(e);
            },
            Ok(()) => {},
        }
        let mut storage_cache = StorageCache::new(self);
        match FarmStakingWrapper::generate_aggregated_rewards(
            self,
            &mut storage_cache,
            config,
            factory,
            current_block_nonce,
        ) {
            Err(e) => {
                return Err(e);
            },
            Ok(()) => {},
        }
        if payment_token != storage_cache.reward_token_id {
            return Err(GuildError::InvalidToken);
        }
        storage_cache.reward_capacity = storage_cache.reward_capacity.plus(payment_amount);
        storage_cache.commit(self, factory);
        self.update_all(config);
        Ok(())
    }
}

} // verus!
