//! The configuration that all guilds of one factory share: limits, rates,
//! the tier tables, and the total that is staked over all guilds.

use vstd::prelude::*;
use crate::amount::Amount;
use crate::errors::GuildError;
use crate::guild_factory::{Address, FactoryModule, GuildFactory, GuildFactoryView};
use crate::guild_interactions::GuildInteractionsModule;
use crate::tier_types::{
    guild_master_tiers_view, GuildMasterRewardTier, GuildMasterRewardTierView, Percent, RewardTier,
    UserRewardTier, MAX_PERCENT,
};

verus! {

/// A period in epochs.
pub type Epoch = u64;

/// The longest unbonding period that can be configured.
pub const MAX_MIN_UNBOND_EPOCHS: Epoch = 30;

pub const PAUSED: bool = true;

pub const UNPAUSED: bool = false;

/// What a configuration starts with.
pub struct InitArgs {
    pub total_staking_tokens_minted: Amount,
    pub max_staked_tokens: Amount,
    pub user_unbond_epochs: Epoch,
    pub guild_master_unbond_epochs: Epoch,
    pub min_stake_user: Amount,
    pub min_stake_guild_master: Amount,
    pub seconds_per_block: u64,
}

pub struct GuildScConfig {
    pub guild_master_tiers: Vec<GuildMasterRewardTier>,
    pub user_tiers: Vec<UserRewardTier>,
    pub max_staked_tokens: Amount,
    pub min_unbond_epochs_user: Epoch,
    pub min_unbond_epochs_guild_master: Epoch,
    pub min_stake_user: Amount,
    pub min_stake_guild_master: Amount,
    pub total_staking_token_minted: Amount,
    pub total_staking_token_staked: Amount,
    pub seconds_per_block: u64,
    pub per_block_reward_amount: Amount,
    pub global_pause_status: bool,
}

pub struct GuildScConfigView {
    pub guild_master_tiers: Seq<GuildMasterRewardTierView>,
    pub user_tiers: Seq<UserRewardTier>,
    pub max_staked_tokens: nat,
    pub min_unbond_epochs_user: Epoch,
    pub min_unbond_epochs_guild_master: Epoch,
    pub min_stake_user: nat,
    pub min_stake_guild_master: nat,
    pub total_staking_token_minted: nat,
    pub total_staking_token_staked: nat,
    pub seconds_per_block: u64,
    pub per_block_reward_amount: nat,
    pub global_pause_status: bool,
}

impl View for GuildScConfig {
    type V = GuildScConfigView;

    open spec fn view(&self) -> GuildScConfigView {
        GuildScConfigView {
            guild_master_tiers: guild_master_tiers_view(self.guild_master_tiers@),
            user_tiers: self.user_tiers@,
            max_staked_tokens: self.max_staked_tokens@,
            min_unbond_epochs_user: self.min_unbond_epochs_user,
            min_unbond_epochs_guild_master: self.min_unbond_epochs_guild_master,
            min_stake_user: self.min_stake_user@,
            min_stake_guild_master: self.min_stake_guild_master@,
            total_staking_token_minted: self.total_staking_token_minted@,
            total_staking_token_staked: self.total_staking_token_staked@,
            seconds_per_block: self.seconds_per_block,
            per_block_reward_amount: self.per_block_reward_amount@,
            global_pause_status: self.global_pause_status,
        }
    }
}

/// Whether the configuration takes calls from `caller`: it does from the
/// guilds on the factory's register and from those that have closed.
pub open spec fn is_guild_caller(factory: GuildFactoryView, caller: Address) -> bool {
    factory.is_closed(caller) || factory.is_deployed(caller)
}

/// What is wrong with the guild master tier at `index` of a table that is
/// being registered, if anything: a rate of zero, a bound that is not above
/// the one before, or a last bound that is not the most that can be staked.
pub open spec fn guild_master_tier_error(
    tiers: Seq<GuildMasterRewardTierView>,
    max_staked_tokens: nat,
    index: int,
) -> Option<GuildError> {
    if tiers[index].apr == 0 {
        Some(GuildError::InvalidApr)
    } else if index > 0 && tiers[index - 1].max_stake >= tiers[index].max_stake {
        Some(GuildError::InvalidStakeEntry)
    } else if index == tiers.len() - 1 && tiers[index].max_stake != max_staked_tokens {
        Some(GuildError::InvalidLastGuildMasterTier)
    } else {
        None
    }
}

/// What is wrong with the user tier at `index` of a table that is being
/// registered, if anything.
pub open spec fn user_tier_error(tiers: Seq<UserRewardTier>, index: int) -> Option<GuildError> {
    if !tiers[index].valid() {
        Some(GuildError::InvalidTierValues)
    } else if index > 0 && tiers[index - 1].max_percentage_staked
        >= tiers[index].max_percentage_staked {
        Some(GuildError::InvalidStakeEntry)
    } else if index == tiers.len() - 1 && tiers[index].max_percentage_staked != MAX_PERCENT {
        Some(GuildError::InvalidLastUserTier)
    } else {
        None
    }
}

impl GuildScConfig {
    /// A configuration without tiers, with nothing staked and no reward per
    /// block yet. The unbonding periods may not exceed
    /// [`MAX_MIN_UNBOND_EPOCHS`], and a block takes at least a second.
    pub fn init(args: InitArgs) -> (r: Result<GuildScConfig, GuildError>)
        ensures
            args.user_unbond_epochs > MAX_MIN_UNBOND_EPOCHS || args.guild_master_unbond_epochs
                > MAX_MIN_UNBOND_EPOCHS ==> r is Err && r->Err_0
                == GuildError::InvalidUnbondEpochs,
            args.user_unbond_epochs <= MAX_MIN_UNBOND_EPOCHS && args.guild_master_unbond_epochs
                <= MAX_MIN_UNBOND_EPOCHS && args.seconds_per_block == 0 ==> r is Err && r->Err_0
                == GuildError::InvalidValue,
            args.user_unbond_epochs <= MAX_MIN_UNBOND_EPOCHS && args.guild_master_unbond_epochs
                <= MAX_MIN_UNBOND_EPOCHS && args.seconds_per_block > 0 ==> r is Ok && r->Ok_0@ == (
            GuildScConfigView {
                guild_master_tiers: Seq::empty(),
                user_tiers: Seq::empty(),
                max_staked_tokens: args.max_staked_tokens@,
                min_unbond_epochs_user: args.user_unbond_epochs,
                min_unbond_epochs_guild_master: args.guild_master_unbond_epochs,
                min_stake_user: args.min_stake_user@,
                min_stake_guild_master: args.min_stake_guild_master@,
                total_staking_token_minted: args.total_staking_tokens_minted@,
                total_staking_token_staked: 0,
                seconds_per_block: args.seconds_per_block,
                per_block_reward_amount: 0,
                global_pause_status: UNPAUSED,
            }),
    {
        if args.user_unbond_epochs > MAX_MIN_UNBOND_EPOCHS || args.guild_master_unbond_epochs
            > MAX_MIN_UNBOND_EPOCHS {
            return Err(GuildError::InvalidUnbondEpochs);
        }
        if args.seconds_per_block == 0 {
            return Err(GuildError::InvalidValue);
        }
        let config = GuildScConfig {
            guild_master_tiers: Vec::new(),
            user_tiers: Vec::new(),
            max_staked_tokens: args.max_staked_tokens,
            min_unbond_epochs_user: args.user_unbond_epochs,
            min_unbond_epochs_guild_master: args.guild_master_unbond_epochs,
            min_stake_user: args.min_stake_user,
            min_stake_guild_master: args.min_stake_guild_master,
            total_staking_token_minted: args.total_staking_tokens_minted,
            total_staking_token_staked: Amount::zero(),
            seconds_per_block: args.seconds_per_block,
            per_block_reward_amount: Amount::zero(),
            global_pause_status: UNPAUSED,
        };
        proof {
            assert(config@.guild_master_tiers =~= Seq::empty());
        }
        Ok(config)
    }
}

/// The limits and rates that hold for every guild, and the total that is
/// staked over all of them.
pub trait GlobalConfigModule: View<V = GuildScConfigView> {
    fn require_valid_unbond_epochs(unbond_epochs: Epoch) -> (r: Result<(), GuildError>)
        ensures
            unbond_epochs <= MAX_MIN_UNBOND_EPOCHS ==> r == Ok::<(), GuildError>(()),
            unbond_epochs > MAX_MIN_UNBOND_EPOCHS ==> r == Err::<(), GuildError>(
                GuildError::InvalidUnbondEpochs,
            ),
    ;

    fn set_min_unbond_epochs_user(&mut self, min_unbond_epochs: Epoch) -> (r: Result<
        (),
        GuildError,
    >)
        ensures
            min_unbond_epochs > MAX_MIN_UNBOND_EPOCHS ==> r == Err::<(), GuildError>(
                GuildError::InvalidUnbondEpochs,
            ) && final(self)@ == old(self)@,
            min_unbond_epochs <= MAX_MIN_UNBOND_EPOCHS ==> r == Ok::<(), GuildError>(())
                && final(self)@ == (GuildScConfigView { min_unbond_epochs_user: min_unbond_epochs,
                    ..old(self)@ }),
    ;

    fn set_min_unbond_epochs_guild_master(&mut self, min_unbond_epochs: Epoch) -> (r: Result<
        (),
        GuildError,
    >)
        ensures
            min_unbond_epochs > MAX_MIN_UNBOND_EPOCHS ==> r == Err::<(), GuildError>(
                GuildError::InvalidUnbondEpochs,
            ) && final(self)@ == old(self)@,
            min_unbond_epochs <= MAX_MIN_UNBOND_EPOCHS ==> r == Ok::<(), GuildError>(())
                && final(self)@ == (GuildScConfigView {
                min_unbond_epochs_guild_master: min_unbond_epochs,
                ..old(self)@
            }),
    ;

    fn set_min_stake_user(&mut self, min_stake: Amount)
        ensures
            final(self)@ == (GuildScConfigView { min_stake_user: min_stake@, ..old(self)@ }),
    ;

    fn set_min_stake_guild_master(&mut self, min_stake: Amount)
        ensures
            final(self)@ == (GuildScConfigView { min_stake_guild_master: min_stake@,
                ..old(self)@ }),
    ;

    fn set_max_staked_tokens(&mut self, max_staked_tokens: Amount)
        ensures
            final(self)@ == (GuildScConfigView {
                max_staked_tokens: max_staked_tokens@,
                ..old(self)@
            }),
    ;

    fn set_total_staking_token_minted(&mut self, total_minted: Amount)
        ensures
            final(self)@ == (GuildScConfigView {
                total_staking_token_minted: total_minted@,
                ..old(self)@
            }),
    ;

    fn set_seconds_per_block(&mut self, new_seconds_per_block: u64) -> (r: Result<
        (),
        GuildError,
    >)
        ensures
            new_seconds_per_block == 0 ==> r == Err::<(), GuildError>(GuildError::InvalidValue)
                && final(self)@ == old(self)@,
            new_seconds_per_block > 0 ==> r == Ok::<(), GuildError>(()) && final(self)@ == (
            GuildScConfigView { seconds_per_block: new_seconds_per_block, ..old(self)@ }),
    ;

    fn set_per_block_reward_amount(&mut self, new_per_block_reward_amount: Amount) -> (r:
        Result<(), GuildError>)
        ensures
            new_per_block_reward_amount@ == 0 ==> r == Err::<(), GuildError>(
                GuildError::InvalidValue,
            ) && final(self)@ == old(self)@,
            new_per_block_reward_amount@ > 0 ==> r == Ok::<(), GuildError>(()) && final(self)@ == (
            GuildScConfigView {
                per_block_reward_amount: new_per_block_reward_amount@,
                ..old(self)@
            }),
    ;

    fn pause_all_guilds(&mut self)
        ensures
            final(self)@ == (GuildScConfigView { global_pause_status: PAUSED, ..old(self)@ }),
    ;

    fn unpause_all_guilds(&mut self)
        ensures
            final(self)@ == (GuildScConfigView { global_pause_status: UNPAUSED, ..old(self)@ }),
    ;

    fn require_not_globally_paused(&self) -> (r: Result<(), GuildError>)
        ensures
            self@.global_pause_status == UNPAUSED ==> r == Ok::<(), GuildError>(()),
            self@.global_pause_status != UNPAUSED ==> r == Err::<(), GuildError>(
                GuildError::GloballyPaused,
            ),
    ;

    /// Only guilds of the factory report what they stake: those on its
    /// register, and those that have closed.
    fn require_guild_sc_caller(&self, factory: &GuildFactory, caller: Address) -> (r: Result<
        (),
        GuildError,
    >)
        ensures
            is_guild_caller(factory@, caller) ==> r == Ok::<(), GuildError>(()),
            !is_guild_caller(factory@, caller)
                ==> r == Err::<(), GuildError>(GuildError::OnlyGuilds),
    ;

    /// A guild reports that `amount` more is staked in it.
    fn increase_staked_tokens(&mut self, factory: &GuildFactory, caller: Address, amount: &Amount)
        -> (r: Result<(), GuildError>)
        ensures
            !is_guild_caller(factory@, caller)
                ==> r == Err::<(), GuildError>(GuildError::OnlyGuilds)
                && final(self)@ == old(self)@,
            is_guild_caller(factory@, caller) ==> r == Ok::<(), GuildError>(()) && final(self)@ == (
            GuildScConfigView {
                total_staking_token_staked: old(self)@.total_staking_token_staked + amount@,
                ..old(self)@
            }),
    ;

    /// A guild reports that `amount` less is staked in it. No more can leave
    /// than was reported.
    fn decrease_staked_tokens(&mut self, factory: &GuildFactory, caller: Address, amount: &Amount)
        -> (r: Result<(), GuildError>)
        ensures
            !is_guild_caller(factory@, caller)
                ==> r == Err::<(), GuildError>(GuildError::OnlyGuilds),
            is_guild_caller(factory@, caller) && amount@ > old(self)@.total_staking_token_staked
                ==> r == Err::<(), GuildError>(GuildError::NegativeResult),
            r.is_err() ==> final(self)@ == old(self)@,
            is_guild_caller(factory@, caller) && amount@ <= old(self)@.total_staking_token_staked
                ==> r == Ok::<(), GuildError>(()) && final(self)@ == (GuildScConfigView {
                total_staking_token_staked: (old(self)@.total_staking_token_staked
                    - amount@) as nat,
                ..old(self)@
            }),
    ;
}

impl GlobalConfigModule for GuildScConfig {
    fn require_valid_unbond_epochs(unbond_epochs: Epoch) -> (r: Result<(), GuildError>) {
        if unbond_epochs <= MAX_MIN_UNBOND_EPOCHS {
            Ok(())
        } else {
            Err(GuildError::InvalidUnbondEpochs)
        }
    }

    fn set_min_unbond_epochs_user(&mut self, min_unbond_epochs: Epoch) -> (r: Result<
        (),
        GuildError,
    >) {
        match Self::require_valid_unbond_epochs(min_unbond_epochs) {
            Err(e) => Err(e),
            Ok(()) => {
                self.min_unbond_epochs_user = min_unbond_epochs;
                Ok(())
            },
        }
    }

    fn set_min_unbond_epochs_guild_master(&mut self, min_unbond_epochs: Epoch) -> (r: Result<
        (),
        GuildError,
    >) {
        match Self::require_valid_unbond_epochs(min_unbond_epochs) {
            Err(e) => Err(e),
            Ok(()) => {
                self.min_unbond_epochs_guild_master = min_unbond_epochs;
                Ok(())
            },
        }
    }

    fn set_min_stake_user(&mut self, min_stake: Amount) {
        self.min_stake_user = min_stake;
    }

    fn set_min_stake_guild_master(&mut self, min_stake: Amount) {
        self.min_stake_guild_master = min_stake;
    }

    fn set_max_staked_tokens(&mut self, max_staked_tokens: Amount) {
        self.max_staked_tokens = max_staked_tokens;
    }

    fn set_total_staking_token_minted(&mut self, total_minted: Amount) {
        self.total_staking_token_minted = total_minted;
    }

    fn set_seconds_per_block(&mut self, new_seconds_per_block: u64) -> (r: Result<
        (),
        GuildError,
    >) {
        if new_seconds_per_block == 0 {
            return Err(GuildError::InvalidValue);
        }
        self.seconds_per_block = new_seconds_per_block;
        Ok(())
    }

    fn set_per_block_reward_amount(&mut self, new_per_block_reward_amount: Amount) -> (r:
        Result<(), GuildError>) {
        if new_per_block_reward_amount.is_zero() {
            return Err(GuildError::InvalidValue);
        }
        self.per_block_reward_amount = new_per_block_reward_amount;
        Ok(())
    }

    fn pause_all_guilds(&mut self) {
        self.global_pause_status = PAUSED;
    }

    fn unpause_all_guilds(&mut self) {
        self.global_pause_status = UNPAUSED;
    }

    fn require_not_globally_paused(&self) -> (r: Result<(), GuildError>) {
        if self.global_pause_status == UNPAUSED {
            Ok(())
        } else {
            Err(GuildError::GloballyPaused)
        }
    }

    fn require_guild_sc_caller(&self, factory: &GuildFactory, caller: Address) -> (r: Result<
        (),
        GuildError,
    >) {
        if factory.is_closed_guild(caller) {
            return Ok(());
        }
        if factory.is_deployed_guild(caller) {
            Ok(())
        } else {
            Err(GuildError::OnlyGuilds)
        }
    }

    fn increase_staked_tokens(&mut self, factory: &GuildFactory, caller: Address, amount: &Amount)
        -> (r: Result<(), GuildError>) {
        match self.require_guild_sc_caller(factory, caller) {
            Err(e) => Err(e),
            Ok(()) => {
                self.total_staking_token_staked = self.total_staking_token_staked.plus(amount);
                Ok(())
            },
        }
    }

    fn decrease_staked_tokens(&mut self, factory: &GuildFactory, caller: Address, amount: &Amount)
        -> (r: Result<(), GuildError>) {
        match self.require_guild_sc_caller(factory, caller) {
            Err(e) => Err(e),
            Ok(()) => match self.total_staking_token_staked.checked_minus(amount) {
                None => Err(GuildError::NegativeResult),
                Some(remaining) => {
                    self.total_staking_token_staked = remaining;
                    Ok(())
                },
            },
        }
    }
}

/// The tier tables: registered once, in rising order, and changed only in
/// their rates.
pub trait TierModule: View<V = GuildScConfigView> {
    /// Appends a tier to a table. Its bound must be above the bound of the tier
    /// before it.
    fn add_tier<T: RewardTier>(mapper: &mut Vec<T>, tier: T) -> (r: Result<(), GuildError>)
        ensures
            old(mapper)@.len() > 0 && !old(mapper)@.last().below(&tier) ==> r == Err::<(), GuildError>(
                GuildError::InvalidStakeEntry,
            ) && final(mapper)@ == old(mapper)@,
            old(mapper)@.len() == 0 || old(mapper)@.last().below(&tier)
                ==> r == Ok::<(), GuildError>(())
                && final(mapper)@ == old(mapper)@.push(tier),
    ;

    /// Gives the tier of the table that has the bound of `reward_tier` the rates
    /// of `reward_tier`.
    fn set_apr<T: RewardTier>(mapper: &mut Vec<T>, reward_tier: T) -> (r: Result<usize, GuildError>)
        ensures
            final(mapper)@.len() == old(mapper)@.len(),
            match r {
                Ok(index) => {
                    &&& index < old(mapper)@.len()
                    &&& old(mapper)@[index as int].same_bound(&reward_tier)
                    &&& forall|j: int|
                        0 <= j < index ==> !(#[trigger] old(mapper)@[j]).same_bound(&reward_tier)
                    &&& forall|j: int|
                        0 <= j < old(mapper)@.len() && j != index
                            ==> final(mapper)@[j] == old(mapper)@[j]
                    &&& final(mapper)@[index as int].apr_value() == reward_tier.apr_value()
                    &&& final(mapper)@[index as int].compounded_apr_value()
                        == reward_tier.compounded_apr_value()
                    &&& final(mapper)@[index as int].same_bound(&old(mapper)@[index as int])
                },
                Err(e) => {
                    &&& e == GuildError::TierNotFound
                    &&& final(mapper)@ == old(mapper)@
                    &&& forall|j: int|
                        0 <= j < old(mapper)@.len() ==> !(#[trigger] old(mapper)@[j]).same_bound(
                            &reward_tier,
                        )
                },
            },
    ;

    fn require_valid_user_tier(user_reward_tier: &UserRewardTier) -> (r: Result<(), GuildError>)
        ensures
            user_reward_tier.valid() ==> r == Ok::<(), GuildError>(()),
            !user_reward_tier.valid() ==> r == Err::<(), GuildError>(GuildError::InvalidTierValues),
    ;

    /// Tables are registered once.
    fn require_empty_mapper<T: RewardTier>(mapper: &Vec<T>) -> (r: Result<(), GuildError>)
        ensures
            mapper@.len() == 0 ==> r == Ok::<(), GuildError>(()),
            mapper@.len() > 0 ==> r == Err::<(), GuildError>(GuildError::TiersAlreadySet),
    ;

    /// Registers the guild master's tiers, once. Every rate is above zero, the
    /// bounds rise strictly, and the last bound is the most that can be
    /// staked. Where a tier breaks a rule, nothing is registered and the
    /// error is that of the first such tier.
    fn add_guild_master_tiers(&mut self, tiers: Vec<GuildMasterRewardTier>) -> (r: Result<
        (),
        GuildError,
    >)
        ensures
            old(self)@.guild_master_tiers.len() > 0 ==> r == Err::<(), GuildError>(
                GuildError::TiersAlreadySet,
            ),
            r.is_err() ==> final(self)@ == old(self)@,
            old(self)@.guild_master_tiers.len() == 0 ==> match r {
                Ok(()) => {
                    &&& forall|i: int|
                        0 <= i < tiers@.len() ==> guild_master_tier_error(
                            guild_master_tiers_view(tiers@),
                            old(self)@.max_staked_tokens,
                            i,
                        ).is_none()
                    &&& final(self)@ == (GuildScConfigView {
                        guild_master_tiers: guild_master_tiers_view(tiers@),
                        ..old(self)@
                    })
                },
                Err(e) => exists|i: int|
                    {
                        &&& 0 <= i < tiers@.len()
                        &&& #[trigger] guild_master_tier_error(
                            guild_master_tiers_view(tiers@),
                            old(self)@.max_staked_tokens,
                            i,
                        ) == Some(e)
                        &&& forall|j: int|
                            0 <= j < i ==> guild_master_tier_error(
                                guild_master_tiers_view(tiers@),
                                old(self)@.max_staked_tokens,
                                j,
                            ).is_none()
                    },
            },
    ;

    /// Registers the users' tiers, once. Every tier is valid, the bounds rise
    /// strictly, and the last bound is 100%. Where a tier breaks a rule,
    /// nothing is registered and the error is that of the first such tier.
    fn add_user_tiers(&mut self, tiers: Vec<UserRewardTier>) -> (r: Result<(), GuildError>)
        ensures
            old(self)@.user_tiers.len() > 0 ==> r == Err::<(), GuildError>(
                GuildError::TiersAlreadySet,
            ),
            r.is_err() ==> final(self)@ == old(self)@,
            old(self)@.user_tiers.len() == 0 ==> match r {
                Ok(()) => {
                    &&& forall|i: int| 0 <= i < tiers@.len()
                        ==> user_tier_error(tiers@, i).is_none()
                    &&& final(self)@ == (GuildScConfigView { user_tiers: tiers@, ..old(self)@ })
                },
                Err(e) => exists|i: int|
                    {
                        &&& 0 <= i < tiers@.len()
                        &&& #[trigger] user_tier_error(tiers@, i) == Some(e)
                        &&& forall|j: int| 0 <= j < i ==> user_tier_error(tiers@, j).is_none()
                    },
            },
    ;

    /// Gives the guild master tier whose bound is `max_stake` new rates.
    fn set_guild_master_tier_apr(
        &mut self,
        max_stake: Amount,
        new_apr: Percent,
        new_compounded_apr: Percent,
    ) -> (r: Result<(), GuildError>)
        ensures
            match r {
                Ok(()) => exists|index: int|
                    {
                        &&& 0 <= index < old(self)@.guild_master_tiers.len()
                        &&& (#[trigger] old(self)@.guild_master_tiers[index]).max_stake
                            == max_stake@
                        &&& forall|j: int|
                            0 <= j < index
                                ==> (#[trigger] old(
                                    self)@.guild_master_tiers[j]).max_stake != max_stake@
                        &&& final(self)@ == (GuildScConfigView {
                            guild_master_tiers: old(self)@.guild_master_tiers.update(
                                index,
                                GuildMasterRewardTierView {
                                    max_stake: max_stake@,
                                    apr: new_apr,
                                    compounded_apr: new_compounded_apr,
                                },
                            ),
                            ..old(self)@
                        })
                    },
                Err(e) => {
                    &&& e == GuildError::TierNotFound
                    &&& final(self)@ == old(self)@
                    &&& forall|j: int|
                        0 <= j < old(self)@.guild_master_tiers.len()
                            ==> (#[trigger] old(
                                self)@.guild_master_tiers[j]).max_stake != max_stake@
                },
            },
    ;

    /// Gives the user tier whose bound is `max_percentage_staked` new rates.
    fn set_user_tier_apr(
        &mut self,
        max_percentage_staked: Percent,
        new_apr: Percent,
        new_compounded_apr: Percent,
    ) -> (r: Result<(), GuildError>)
        ensures
            match r {
                Ok(()) => exists|index: int|
                    {
                        &&& 0 <= index < old(self)@.user_tiers.len()
                        &&& (#[trigger] old(self)@.user_tiers[index]).max_percentage_staked
                            == max_percentage_staked
                        &&& forall|j: int|
                            0 <= j < index
                                ==> (#[trigger] old(
                                    self)@.user_tiers[j]).max_percentage_staked !=
                                        max_percentage_staked
                        &&& final(self)@ == (GuildScConfigView {
                            user_tiers: old(self)@.user_tiers.update(
                                index,
                                UserRewardTier {
                                    max_percentage_staked,
                                    apr: new_apr,
                                    compounded_apr: new_compounded_apr,
                                },
                            ),
                            ..old(self)@
                        })
                    },
                Err(e) => {
                    &&& e == GuildError::TierNotFound
                    &&& final(self)@ == old(self)@
                    &&& forall|j: int|
                        0 <= j < old(self)@.user_tiers.len()
                            ==> (#[trigger] old(
                                self)@.user_tiers[j]).max_percentage_staked != max_percentage_staked
                },
            },
    ;
}

impl TierModule for GuildScConfig {
    fn add_tier<T: RewardTier>(mapper: &mut Vec<T>, tier: T) -> (r: Result<(), GuildError>) {
        let mapper_len = mapper.len();
        if mapper_len > 0 {
            if !mapper[mapper_len - 1].is_below(&tier) {
                return Err(GuildError::InvalidStakeEntry);
            }
        }
        mapper.push(tier);
        Ok(())
    }

    fn set_apr<T: RewardTier>(mapper: &mut Vec<T>, reward_tier: T) -> (r: Result<usize, GuildError>) {
        let mut i: usize = 0;
        while i < mapper.len()
            invariant
                i <= mapper.len(),
                mapper@ == old(mapper)@,
                forall|j: int| 0 <= j < i ==> !(#[trigger] mapper@[j]).same_bound(&reward_tier),
            decreases mapper.len() - i,
        {
            if mapper[i].is_equal(&reward_tier) {
                mapper[i].set_apr(&reward_tier);
                return Ok(i);
            }
            i += 1;
        }
        Err(GuildError::TierNotFound)
    }

    fn require_valid_user_tier(user_reward_tier: &UserRewardTier) -> (r: Result<(), GuildError>) {
        if user_reward_tier.max_percentage_staked > 0 && user_reward_tier.max_percentage_staked
            <= MAX_PERCENT && user_reward_tier.apr != 0 {
            Ok(())
        } else {
            Err(GuildError::InvalidTierValues)
        }
    }

    fn require_empty_mapper<T: RewardTier>(mapper: &Vec<T>) -> (r: Result<(), GuildError>) {
        if mapper.len() == 0 {
            Ok(())
        } else {
            Err(GuildError::TiersAlreadySet)
        }
    }

    fn add_guild_master_tiers(&mut self, tiers: Vec<GuildMasterRewardTier>) -> (r: Result<
        (),
        GuildError,
    >) {
        match Self::require_empty_mapper(&self.guild_master_tiers) {
            Err(e) => {
                return Err(e);
            },
            Ok(()) => {},
        }
        let ghost views = guild_master_tiers_view(tiers@);
        let ghost max = self@.max_staked_tokens;
        let tiers_len = tiers.len();
        let mut accepted: Vec<GuildMasterRewardTier> = Vec::new();
        let mut i: usize = 0;
        while i < tiers_len
            invariant
                tiers_len == tiers@.len(),
                i <= tiers_len,
                views == guild_master_tiers_view(tiers@),
                max == self@.max_staked_tokens,
                *self == *old(self),
                self.guild_master_tiers@.len() == 0,
                accepted@.len() == i,
                forall|j: int| 0 <= j < i ==> (#[trigger] accepted@[j])@ == views[j],
                forall|j: int| 0 <= j < i ==> guild_master_tier_error(views, max, j).is_none(),
            decreases tiers_len - i,
        {
            let reward_tier = tiers[i].duplicate();
            if reward_tier.apr == 0 {
                assert(guild_master_tier_error(views, max,
                    i as int) == Some(GuildError::InvalidApr));
                return Err(GuildError::InvalidApr);
            }
            let is_last_and_wrong = i == tiers_len - 1 && !reward_tier.max_stake.same_as(
                &self.max_staked_tokens,
            );
            match Self::add_tier(&mut accepted, reward_tier) {
                Err(e) => {
                    assert(guild_master_tier_error(views, max, i as int) == Some(
                        GuildError::InvalidStakeEntry,
                    ));
                    return Err(e);
                },
                Ok(()) => {},
            }
            if is_last_and_wrong {
                assert(guild_master_tier_error(views, max, i as int) == Some(
                    GuildError::InvalidLastGuildMasterTier,
                ));
                return Err(GuildError::InvalidLastGuildMasterTier);
            }
            assert(guild_master_tier_error(views, max, i as int).is_none());
            i += 1;
        }
        self.guild_master_tiers = accepted;
        proof {
            assert(self@.guild_master_tiers =~= views);
        }
        Ok(())
    }

    fn add_user_tiers(&mut self, tiers: Vec<UserRewardTier>) -> (r: Result<(), GuildError>) {
        match Self::require_empty_mapper(&self.user_tiers) {
            Err(e) => {
                return Err(e);
            },
            Ok(()) => {},
        }
        let tiers_len = tiers.len();
        let mut accepted: Vec<UserRewardTier> = Vec::new();
        let mut i: usize = 0;
        while i < tiers_len
            invariant
                tiers_len == tiers@.len(),
                i <= tiers_len,
                *self == *old(self),
                self.user_tiers@.len() == 0,
                accepted@ == tiers@.subrange(0, i as int),
                forall|j: int| 0 <= j < i ==> user_tier_error(tiers@, j).is_none(),
            decreases tiers_len - i,
        {
            let reward_tier = tiers[i];
            match Self::require_valid_user_tier(&reward_tier) {
                Err(e) => {
                    assert(user_tier_error(tiers@,
                        i as int) == Some(GuildError::InvalidTierValues));
                    return Err(e);
                },
                Ok(()) => {},
            }
            match Self::add_tier(&mut accepted, reward_tier) {
                Err(e) => {
                    assert(user_tier_error(tiers@,
                        i as int) == Some(GuildError::InvalidStakeEntry));
                    return Err(e);
                },
                Ok(()) => {},
            }
            if i == tiers_len - 1 && reward_tier.max_percentage_staked != MAX_PERCENT {
                assert(user_tier_error(tiers@, i as int) == Some(GuildError::InvalidLastUserTier));
                return Err(GuildError::InvalidLastUserTier);
            }
            assert(user_tier_error(tiers@, i as int).is_none());
            proof {
                assert(accepted@ =~= tiers@.subrange(0, i + 1));
            }
            i += 1;
        }
        proof {
            assert(accepted@ =~= tiers@);
        }
        self.user_tiers = accepted;
        Ok(())
    }

    fn set_guild_master_tier_apr(
        &mut self,
        max_stake: Amount,
        new_apr: Percent,
        new_compounded_apr: Percent,
    ) -> (r: Result<(), GuildError>) {
        let reward_tier = GuildMasterRewardTier {
            max_stake,
            apr: new_apr,
            compounded_apr: new_compounded_apr,
        };
        let ghost before = self.guild_master_tiers@;
        match Self::set_apr(&mut self.guild_master_tiers, reward_tier) {
            Ok(index) => {
                proof {
                    let after = self.guild_master_tiers@;
                    assert(before[index as int]@.max_stake == max_stake@);
                    assert(old(self)@.guild_master_tiers[index as int] == before[index as int]@);
                    assert forall|j: int| 0 <= j < index implies (#[trigger] old(
                        self)@.guild_master_tiers[j]).max_stake != max_stake@ by {
                        assert(!before[j].same_bound(&reward_tier));
                    }
                    assert(self@.guild_master_tiers =~= old(self)@.guild_master_tiers.update(
                        index as int,
                        GuildMasterRewardTierView {
                            max_stake: max_stake@,
                            apr: new_apr,
                            compounded_apr: new_compounded_apr,
                        },
                    )) by {
                        assert forall|j: int| 0 <= j < after.len() implies guild_master_tiers_view(
                            after,
                        )[j] == old(self)@.guild_master_tiers.update(
                            index as int,
                            GuildMasterRewardTierView {
                                max_stake: max_stake@,
                                apr: new_apr,
                                compounded_apr: new_compounded_apr,
                            },
                        )[j] by {
                            if j != index {
                                assert(after[j] == before[j]);
                            }
                        }
                    }
                }
                Ok(())
            },
            Err(e) => {
                proof {
                    assert forall|j: int|
                        0 <= j < old(self)@.guild_master_tiers.len() implies (#[trigger] old(
                            self)@.guild_master_tiers[j]).max_stake != max_stake@ by {
                        assert(!before[j].same_bound(&reward_tier));
                    }
                }
                Err(e)
            },
        }
    }

    fn set_user_tier_apr(
        &mut self,
        max_percentage_staked: Percent,
        new_apr: Percent,
        new_compounded_apr: Percent,
    ) -> (r: Result<(), GuildError>) {
        let reward_tier = UserRewardTier {
            max_percentage_staked,
            apr: new_apr,
            compounded_apr: new_compounded_apr,
        };
        let ghost before = self.user_tiers@;
        match Self::set_apr(&mut self.user_tiers, reward_tier) {
            Ok(index) => {
                proof {
                    assert(before[index as int].max_percentage_staked == max_percentage_staked);
                    assert forall|j: int| 0 <= j < index implies (#[trigger] old(
                        self)@.user_tiers[j]).max_percentage_staked != max_percentage_staked by {
                        assert(!before[j].same_bound(&reward_tier));
                    }
                    assert(self@.user_tiers =~= old(self)@.user_tiers.update(
                        index as int,
                        reward_tier,
                    ));
                }
                Ok(())
            },
            Err(e) => {
                proof {
                    assert forall|j: int| 0 <= j < old(self)@.user_tiers.len() implies (
                    #[trigger] old(self)@.user_tiers[j]).max_percentage_staked
                        != max_percentage_staked by {
                        assert(!before[j].same_bound(&reward_tier));
                    }
                }
                Err(e)
            },
        }
    }
}

} // verus!
