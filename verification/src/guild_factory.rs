//! The factory: it keeps the register of guilds and the pool of rewards that
//! guilds draw from.

use vstd::prelude::*;
use crate::amount::Amount;
use crate::errors::GuildError;
use crate::farm_staking::{FarmStaking, FarmStakingView, State};
use crate::guild_config::{GuildScConfig, GuildScConfigView};
use crate::rewards::RewardsModule;
use crate::token_attributes::TokenIdentifier;

verus! {

/// Who an account is.
pub type Address = u64;

/// A guild that asks for rewards is offered this many times what it asked for.
pub const BASE_REWARD_MULTIPLIER: u64 = 10;

/// The division safety constant of a factory must be larger than this.
pub const MIN_DIV_SAFETY: u64 = 1_000_000_000_000_000_000;

/// What every guild of one factory has in common.
pub struct GuildLocalConfig {
    pub farming_token_id: TokenIdentifier,
    pub division_safety_constant: Amount,
}

/// A guild and its master.
#[derive(Clone, Copy, PartialEq, Eq, Structural, Debug)]
pub struct GetGuildResultType {
    pub guild: Address,
    pub guild_master: Address,
}

pub struct GuildFactory {
    pub address: Address,
    pub guild_local_config: GuildLocalConfig,
    pub config_deployed: bool,
    pub deployed_guilds: Vec<GetGuildResultType>,
    pub closed_guilds: Vec<Address>,
    pub remaining_rewards: Amount,
}

pub struct GuildFactoryView {
    pub address: Address,
    pub farming_token_id: TokenIdentifier,
    pub division_safety_constant: nat,
    pub config_deployed: bool,
    pub deployed_guilds: Seq<GetGuildResultType>,
    pub closed_guilds: Seq<Address>,
    pub remaining_rewards: nat,
}

impl GuildFactoryView {
    /// Why no guild can be deployed for `caller` at `guild_address`, if none
    /// can: an account has one guild at most, guilds are deployed only once
    /// the configuration is, no two guilds share an address, and reward shares
    /// must be scalable.
    pub open spec fn deploy_error(self, caller: Address, guild_address: Address) -> Option<
        GuildError,
    > {
        if self.has_guild_of(caller) {
            Some(GuildError::AlreadyHasGuild)
        } else if !self.config_deployed {
            Some(GuildError::ConfigNotDeployed)
        } else if self.is_deployed(guild_address) {
            Some(GuildError::InvalidValue)
        } else if self.division_safety_constant == 0 {
            Some(GuildError::ZeroAmount)
        } else {
            None
        }
    }

    /// Whether `guild_master` is on the register as the master of `guild`.
    pub open spec fn is_master_of(self, guild_master: Address, guild: Address) -> bool {
        exists|i: int|
            0 <= i < self.deployed_guilds.len() && (#[trigger] self.deployed_guilds[i]).guild
                == guild && self.deployed_guilds[i].guild_master == guild_master
    }

    /// Why `guild` cannot be resumed by `caller`, if it cannot.
    pub open spec fn resume_error(
        self,
        config: GuildScConfigView,
        guild: FarmStakingView,
        caller: Address,
    ) -> Option<GuildError> {
        if !self.is_deployed(guild.own_address) {
            Some(GuildError::UnknownGuild)
        } else if !self.is_master_of(caller, guild.own_address) {
            Some(GuildError::OnlyGuildMasterMayCall)
        } else if config.guild_master_tiers.len() == 0 || config.user_tiers.len() == 0 {
            Some(GuildError::ConfigSetupNotComplete)
        } else if guild.local_roles_error() is Some {
            guild.local_roles_error()
        } else if guild.per_block_reward_amount == 0 {
            Some(GuildError::ZeroRewardAmount)
        } else if guild.produce_rewards_enabled {
            Some(GuildError::AlreadyProducingRewards)
        } else {
            None
        }
    }

    pub open spec fn is_deployed(self, guild: Address) -> bool {
        exists|i: int| 0 <= i < self.deployed_guilds.len() && self.deployed_guilds[i].guild == guild
    }

    pub open spec fn has_guild_of(self, guild_master: Address) -> bool {
        exists|i: int|
            0 <= i < self.deployed_guilds.len() && self.deployed_guilds[i].guild_master
                == guild_master
    }

    pub open spec fn is_closed(self, guild: Address) -> bool {
        self.closed_guilds.contains(guild)
    }

    /// What a guild that asks for `amount` is given: ten times as much, as far
    /// as the pool goes.
    pub open spec fn rewards_for_request(self, amount: nat) -> nat {
        if amount * BASE_REWARD_MULTIPLIER <= self.remaining_rewards {
            amount * (BASE_REWARD_MULTIPLIER as nat)
        } else {
            self.remaining_rewards
        }
    }

    /// Whether `after` is `self` with the guild `guild` moved from the
    /// register to the closed guilds, and `added` more rewards in the pool.
    pub open spec fn closes_guild(self, after: GuildFactoryView, guild: Address,
        added: nat) -> bool {
        exists|index: int|
            #![trigger self.deployed_guilds[index]]
            0 <= index < self.deployed_guilds.len() && self.deployed_guilds[index].guild == guild
                && after == (GuildFactoryView {
                deployed_guilds: swap_removed(self.deployed_guilds, index),
                closed_guilds: self.closed_guilds.push(guild),
                remaining_rewards: self.remaining_rewards + added,
                ..self
            })
    }
}

/// The register without the entry at `index`, whose place the last entry takes.
pub open spec fn swap_removed(entries: Seq<GetGuildResultType>, index: int) -> Seq<
    GetGuildResultType,
> {
    let last = entries.len() - 1;
    if index == last {
        entries.drop_last()
    } else {
        entries.drop_last().update(index, entries[last])
    }
}

impl View for GuildFactory {
    type V = GuildFactoryView;

    open spec fn view(&self) -> GuildFactoryView {
        GuildFactoryView {
            address: self.address,
            farming_token_id: self.guild_local_config.farming_token_id,
            division_safety_constant: self.guild_local_config.division_safety_constant@,
            config_deployed: self.config_deployed,
            deployed_guilds: self.deployed_guilds@,
            closed_guilds: self.closed_guilds@,
            remaining_rewards: self.remaining_rewards@,
        }
    }
}

impl GuildFactory {
    /// A factory with an empty register and an empty pool.
    pub fn init(
        address: Address,
        farming_token_id: TokenIdentifier,
        division_safety_constant: Amount,
    ) -> (r: Result<
        GuildFactory,
        GuildError,
    >)
        ensures
            division_safety_constant@ <= MIN_DIV_SAFETY ==> r == Err::<GuildFactory, GuildError>(
                GuildError::DivisionSafetyTooSmall,
            ),
            division_safety_constant@ > MIN_DIV_SAFETY ==> r.is_ok() && r.unwrap()@ == (
            GuildFactoryView {
                address,
                farming_token_id,
                division_safety_constant: division_safety_constant@,
                config_deployed: false,
                deployed_guilds: Seq::empty(),
                closed_guilds: Seq::empty(),
                remaining_rewards: 0,
            }),
    {
        let min = Amount::from_u64(MIN_DIV_SAFETY);
        if !min.less_than(&division_safety_constant) {
            return Err(GuildError::DivisionSafetyTooSmall);
        }
        Ok(
            GuildFactory {
                address,
                guild_local_config: GuildLocalConfig { farming_token_id, division_safety_constant },
                config_deployed: false,
                deployed_guilds: Vec::new(),
                closed_guilds: Vec::new(),
                remaining_rewards: Amount::zero(),
            },
        )
    }
}

/// The register of guilds.
pub trait FactoryModule: View<V = GuildFactoryView> {
    /// Where in the register `guild` stands first, if it stands there.
    fn find_guild(&self, guild: Address) -> (r: Option<usize>)
        ensures
            match r {
                Some(index) => {
                    &&& index < self@.deployed_guilds.len()
                    &&& self@.deployed_guilds[index as int].guild == guild
                    &&& forall|j: int|
                        0 <= j < index ==> (#[trigger] self@.deployed_guilds[j]).guild != guild
                },
                None => !self@.is_deployed(guild),
            },
    ;

    fn is_deployed_guild(&self, guild: Address) -> (r: bool)
        ensures
            r == self@.is_deployed(guild),
    ;

    fn has_guild_of(&self, guild_master: Address) -> (r: bool)
        ensures
            r == self@.has_guild_of(guild_master),
    ;

    fn require_known_guild(&self, guild: Address) -> (r: Result<(), GuildError>)
        ensures
            self@.is_deployed(guild) ==> r == Ok::<(), GuildError>(()),
            !self@.is_deployed(guild) ==> r == Err::<(), GuildError>(GuildError::UnknownGuild),
    ;

    /// The guilds on the register, each with its master.
    fn get_all_guilds(&self) -> (r: Vec<GetGuildResultType>)
        ensures
            r@ == self@.deployed_guilds,
    ;

    /// Enters a new guild and its master on the register. An account is the
    /// master of one guild at most, and guilds are deployed only once the
    /// configuration is.
    fn register_guild(&mut self, guild_master: Address, guild: Address) -> (r: Result<
        (),
        GuildError,
    >)
        ensures
            old(self)@.has_guild_of(guild_master) ==> r == Err::<(), GuildError>(
                GuildError::AlreadyHasGuild,
            ),
            !old(self)@.has_guild_of(guild_master) && !old(self)@.config_deployed ==> r == Err::<
                (),
                GuildError,
            >(GuildError::ConfigNotDeployed),
            !old(self)@.has_guild_of(guild_master) && old(self)@.config_deployed
                && old(self)@.is_deployed(guild)
                    ==> r == Err::<(), GuildError>(GuildError::InvalidValue),
            r.is_err() ==> final(self)@ == old(self)@,
            r.is_ok() ==> final(self)@ == (GuildFactoryView {
                deployed_guilds: old(self)@.deployed_guilds.push(
                    GetGuildResultType { guild, guild_master },
                ),
                ..old(self)@
            }),
            r.is_ok() <==> !old(self)@.has_guild_of(guild_master) && old(self)@.config_deployed
                && !old(self)@.is_deployed(guild),
    ;

    /// Strikes the guild at `index` off the register and enters it among the
    /// closed ones.
    fn remove_guild_common(&mut self, index: usize)
        requires
            index < old(self)@.deployed_guilds.len(),
        ensures
            final(self)@ == (GuildFactoryView {
                deployed_guilds: swap_removed(old(self)@.deployed_guilds, index as int),
                closed_guilds: old(self)@.closed_guilds.push(
                    old(self)@.deployed_guilds[index as int].guild,
                ),
                ..old(self)@
            }),
    ;

    /// Only the master of a guild resumes it.
    fn require_guild_master_caller(&self, guild: Address, caller: Address) -> (r: Result<
        (),
        GuildError,
    >)
        ensures
            self@.is_master_of(caller, guild) ==> r == Ok::<(), GuildError>(()),
            !self@.is_master_of(caller, guild) ==> r == Err::<(), GuildError>(
                GuildError::OnlyGuildMasterMayCall,
            ),
    ;

    /// Guilds are resumed only once both tier tables are registered.
    fn require_config_setup_complete(&self, config: &GuildScConfig) -> (r: Result<
        (),
        GuildError,
    >)
        ensures
            config@.guild_master_tiers.len() > 0 && config@.user_tiers.len() > 0 ==> r == Ok::<
                (),
                GuildError,
            >(()),
            config@.guild_master_tiers.len() == 0 || config@.user_tiers.len() == 0 ==> r == Err::<
                (),
                GuildError,
            >(GuildError::ConfigSetupNotComplete),
    ;
}

impl FactoryModule for GuildFactory {
    fn find_guild(&self, guild: Address) -> (r: Option<usize>) {
        let mut i: usize = 0;
        while i < self.deployed_guilds.len()
            invariant
                i <= self.deployed_guilds.len(),
                forall|j: int| 0 <= j < i ==> self.deployed_guilds@[j].guild != guild,
            decreases self.deployed_guilds.len() - i,
        {
            if self.deployed_guilds[i].guild == guild {
                assert(self@.deployed_guilds[i as int].guild == guild);
                return Some(i);
            }
            i += 1;
        }
        None
    }

    fn is_deployed_guild(&self, guild: Address) -> (r: bool) {
        self.find_guild(guild).is_some()
    }

    fn has_guild_of(&self, guild_master: Address) -> (r: bool) {
        let mut i: usize = 0;
        while i < self.deployed_guilds.len()
            invariant
                i <= self.deployed_guilds.len(),
                forall|j: int| 0 <= j < i ==> self.deployed_guilds@[j].guild_master != guild_master,
            decreases self.deployed_guilds.len() - i,
        {
            if self.deployed_guilds[i].guild_master == guild_master {
                assert(self@.deployed_guilds[i as int].guild_master == guild_master);
                return true;
            }
            i += 1;
        }
        false
    }

    fn require_known_guild(&self, guild: Address) -> (r: Result<(), GuildError>) {
        if self.is_deployed_guild(guild) {
            Ok(())
        } else {
            Err(GuildError::UnknownGuild)
        }
    }

    fn get_all_guilds(&self) -> (r: Vec<GetGuildResultType>) {
        let mut result: Vec<GetGuildResultType> = Vec::new();
        let mut i: usize = 0;
        while i < self.deployed_guilds.len()
            invariant
                i <= self.deployed_guilds.len(),
                result@ == self.deployed_guilds@.subrange(0, i as int),
            decreases self.deployed_guilds.len() - i,
        {
            result.push(self.deployed_guilds[i]);
            proof {
                assert(result@ =~= self.deployed_guilds@.subrange(0, i + 1));
            }
            i += 1;
        }
        proof {
            assert(result@ =~= self.deployed_guilds@);
        }
        result
    }

    fn register_guild(&mut self, guild_master: Address, guild: Address) -> (r: Result<
        (),
        GuildError,
    >) {
        if self.has_guild_of(guild_master) {
            return Err(GuildError::AlreadyHasGuild);
        }
        if !self.config_deployed {
            return Err(GuildError::ConfigNotDeployed);
        }
        if self.is_deployed_guild(guild) {
            return Err(GuildError::InvalidValue);
        }
        self.deployed_guilds.push(GetGuildResultType { guild, guild_master });
        Ok(())
    }

    fn remove_guild_common(&mut self, index: usize) {
        let guild = self.deployed_guilds[index].guild;
        let last = self.deployed_guilds.len() - 1;
        let moved = self.deployed_guilds[last];
        let _ = self.deployed_guilds.pop();
        if index != last {
            self.deployed_guilds.set(index, moved);
        }
        self.closed_guilds.push(guild);
    }

    fn require_guild_master_caller(&self, guild: Address, caller: Address) -> (r: Result<
        (),
        GuildError,
    >) {
        let mut i: usize = 0;
        while i < self.deployed_guilds.len()
            invariant
                i <= self.deployed_guilds.len(),
                forall|j: int|
                    0 <= j < i ==> !((#[trigger] self.deployed_guilds@[j]).guild == guild
                        && self.deployed_guilds@[j].guild_master == caller),
            decreases self.deployed_guilds.len() - i,
        {
            if self.deployed_guilds[i].guild == guild && self.deployed_guilds[i].guild_master
                == caller {
                assert(self@.deployed_guilds[i as int].guild == guild);
                return Ok(());
            }
            i += 1;
        }
        Err(GuildError::OnlyGuildMasterMayCall)
    }

    fn require_config_setup_complete(&self, config: &GuildScConfig) -> (r: Result<
        (),
        GuildError,
    >) {
        if config.guild_master_tiers.len() == 0 || config.user_tiers.len() == 0 {
            return Err(GuildError::ConfigSetupNotComplete);
        }
        Ok(())
    }
}

impl GuildFactory {
    /// Deploys a guild for `caller` at `guild_address`: enters it on the
    /// register and hands out the new guild, inactive and empty, with the
    /// shared configuration as it stands.
    pub fn deploy_guild(&mut self, config: &GuildScConfig, caller: Address, guild_address: Address)
        -> (r: Result<FarmStaking, GuildError>)
        ensures
            match r {
                Ok(guild) => {
                    &&& old(self)@.deploy_error(caller, guild_address) is None
                    &&& final(self)@ == (GuildFactoryView {
                        deployed_guilds: old(self)@.deployed_guilds.push(
                            GetGuildResultType { guild: guild_address, guild_master: caller },
                        ),
                        ..old(self)@
                    })
                    &&& guild@ == FarmStakingView::new_guild(
                        guild_address,
                        old(self)@.address,
                        old(self)@.farming_token_id,
                        old(self)@.division_safety_constant,
                        caller,
                    ).with_config(config@)
                    &&& guild@.wf()
                },
                Err(e) => old(self)@.deploy_error(caller, guild_address) == Some(e) && final(self)@
                    == old(self)@,
            },
    {
        if self.has_guild_of(caller) {
            return Err(GuildError::AlreadyHasGuild);
        }
        if !self.config_deployed {
            return Err(GuildError::ConfigNotDeployed);
        }
        if self.is_deployed_guild(guild_address) {
            return Err(GuildError::InvalidValue);
        }
        let guild = match FarmStaking::init(
            guild_address,
            self.address,
            self.guild_local_config.farming_token_id,
            self.guild_local_config.division_safety_constant.duplicate(),
            config,
            caller,
        ) {
            Ok(guild) => guild,
            Err(e) => {
                return Err(e);
            },
        };
        self.register_guild(caller, guild_address).unwrap();
        Ok(guild)
    }

    /// Resumes the guild of `caller` and starts its rewards: the tier tables
    /// must be registered, and the guild must have its tokens and roles.
    pub fn resume_guild_endpoint(
        &self,
        config: &GuildScConfig,
        guild: &mut FarmStaking,
        caller: Address,
        current_block_nonce: u64,
    ) -> (r: Result<(), GuildError>)
        ensures
            match r {
                Ok(()) => self@.resume_error(config@, old(guild)@, caller) is None && final(guild)@
                    == (FarmStakingView {
                    state: State::Active,
                    produce_rewards_enabled: true,
                    last_reward_block_nonce: current_block_nonce,
                    ..old(guild)@
                }),
                Err(e) => self@.resume_error(config@, old(guild)@, caller) == Some(e) && final(guild)@ == old(guild)@,
            },
    {
        match self.require_known_guild(guild.own_address) {
            Err(e) => {
                return Err(e);
            },
            Ok(()) => {},
        }
        match self.require_guild_master_caller(guild.own_address, caller) {
            Err(e) => {
                return Err(e);
            },
            Ok(()) => {},
        }
        match self.require_config_setup_complete(config) {
            Err(e) => {
                return Err(e);
            },
            Ok(()) => {},
        }
        match guild.check_local_roles_set() {
            Err(e) => {
                return Err(e);
            },
            Ok(()) => {},
        }
        if guild.per_block_reward_amount.is_zero() {
            return Err(GuildError::ZeroRewardAmount);
        }
        if guild.produce_rewards_enabled {
            return Err(GuildError::AlreadyProducingRewards);
        }
        guild.resume();
        guild.start_produce_rewards(current_block_nonce).unwrap();
        Ok(())
    }
}

} // verus!
