//! What a guild reports to the shared configuration.

use vstd::prelude::*;
use crate::amount::Amount;
use crate::errors::GuildError;
use crate::farm_staking::{FarmStaking, FarmStakingView};
use crate::guild_config::{is_guild_caller, GlobalConfigModule, GuildScConfig, GuildScConfigView};
use crate::guild_factory::GuildFactory;

verus! {

/// The calls of a guild into the shared configuration, which keeps the total
/// that is staked over all guilds.
pub trait CallConfigModule: View<V = FarmStakingView> {
    /// Reports that `amount` more is staked in the guild.
    fn call_increase_total_staked_tokens(
        &self,
        config: &mut GuildScConfig,
        factory: &GuildFactory,
        amount: &Amount,
    ) -> (r: Result<(), GuildError>)
        ensures
            !is_guild_caller(factory@, self@.own_address) ==> r == Err::<(), GuildError>(
                GuildError::OnlyGuilds,
            ) && final(config)@ == old(config)@,
            is_guild_caller(factory@, self@.own_address) ==> r == Ok::<(), GuildError>(())
                && final(config)@ == (GuildScConfigView {
                total_staking_token_staked: old(config)@.total_staking_token_staked + amount@,
                ..old(config)@
            }),
    ;

    /// Reports that `amount` less is staked in the guild.
    fn call_decrease_total_staked_tokens(
        &self,
        config: &mut GuildScConfig,
        factory: &GuildFactory,
        amount: &Amount,
    ) -> (r: Result<(), GuildError>)
        ensures
            !is_guild_caller(factory@, self@.own_address) ==> r == Err::<(), GuildError>(
                GuildError::OnlyGuilds,
            ),
            is_guild_caller(factory@, self@.own_address)
                && amount@ > old(config)@.total_staking_token_staked ==> r == Err::<(), GuildError>(
                GuildError::NegativeResult,
            ),
            r.is_err() ==> final(config)@ == old(config)@,
            is_guild_caller(factory@, self@.own_address)
                && amount@ <= old(config)@.total_staking_token_staked
                    ==> r == Ok::<(), GuildError>(()) && final(config)@ == (
            GuildScConfigView {
                total_staking_token_staked: (old(config)@.total_staking_token_staked
                    - amount@) as nat,
                ..old(config)@
            }),
    ;
}

impl CallConfigModule for FarmStaking {
    fn call_increase_total_staked_tokens(
        &self,
        config: &mut GuildScConfig,
        factory: &GuildFactory,
        amount: &Amount,
    ) -> (r: Result<(), GuildError>) {
        config.increase_staked_tokens(factory, self.own_address, amount)
    }

    fn call_decrease_total_staked_tokens(
        &self,
        config: &mut GuildScConfig,
        factory: &GuildFactory,
        amount: &Amount,
    ) -> (r: Result<(), GuildError>) {
        config.decrease_staked_tokens(factory, self.own_address, amount)
    }
}

} // verus!
