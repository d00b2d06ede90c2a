//! What guilds ask of the factory: rewards from its pool, a place for the
//! rewards that a closing guild hands back, and a new guild for those who
//! leave a closed one.

use vstd::prelude::*;
use crate::amount::Amount;
use crate::errors::GuildError;
use crate::farm_base::positions_view;
use crate::farm_staking::FarmStaking;
use crate::guild_config::GuildScConfig;
use crate::guild_factory::{
    Address, FactoryModule, GuildFactory, GuildFactoryView, BASE_REWARD_MULTIPLIER,
};
use crate::stake_farm::StakeFarmModule;
use crate::token_attributes::{EsdtTokenPayment, StakingFarmToken, TokenIdentifier};

verus! {

/// The calls that guilds make into the factory.
pub trait GuildInteractionsModule: View<V = GuildFactoryView> {
    fn is_closed_guild(&self, guild: Address) -> (r: bool)
        ensures
            r == self@.is_closed(guild),
    ;

    fn require_closed_guild(&self, guild: Address) -> (r: Result<(), GuildError>)
        ensures
            self@.is_closed(guild) ==> r == Ok::<(), GuildError>(()),
            !self@.is_closed(guild) ==> r == Err::<(), GuildError>(GuildError::GuildNotClosed),
    ;

    /// What a guild that asks for `amount` would be given now.
    fn rewards_for_request(&self, amount: &Amount) -> (r: Amount)
        ensures
            r@ == self@.rewards_for_request(amount@),
    ;

    /// Hands rewards from the pool to the guild `caller`. The guild is offered
    /// ten times what it asks for and gets what the pool still holds of that,
    /// which may be less than it asked for, or nothing.
    fn request_rewards(&mut self, caller: Address, amount: &Amount) -> (r: Result<
        Amount,
        GuildError,
    >)
        ensures
            !old(self)@.is_deployed(caller) ==> r is Err && r->Err_0
                == GuildError::UnknownGuild && final(self)@ == old(self)@,
            old(self)@.is_deployed(caller) ==> r.is_ok()
                && r.unwrap()@ == old(self)@.rewards_for_request(amount@)
                    && final(self)@ == (GuildFactoryView {
                remaining_rewards: (old(self)@.remaining_rewards - old(self)@.rewards_for_request(
                    amount@)) as nat,
                ..old(self)@
            }),
    ;

    /// Takes what was granted out of the pool.
    fn pay_out(&mut self, granted: &Amount)
        requires
            granted@ <= old(self)@.remaining_rewards,
        ensures
            final(self)@ == (GuildFactoryView {
                remaining_rewards: (old(self)@.remaining_rewards - granted@) as nat,
                ..old(self)@
            }),
    ;

    /// What comes into the pool is in the staking token, which is the reward
    /// token as well.
    fn check_payment_is_farming_token(&self, token_id: TokenIdentifier) -> (r: Result<
        (),
        GuildError,
    >)
        ensures
            token_id == self@.farming_token_id ==> r == Ok::<(), GuildError>(()),
            token_id != self@.farming_token_id ==> r == Err::<(), GuildError>(
                GuildError::InvalidPayment,
            ),
    ;

    /// Adds a payment in the staking token to the pool.
    fn deposit_rewards_common(&mut self, token_id: TokenIdentifier, amount: &Amount) -> (r:
        Result<(), GuildError>)
        ensures
            token_id != old(self)@.farming_token_id ==> r == Err::<(), GuildError>(
                GuildError::InvalidPayment,
            ) && final(self)@ == old(self)@,
            token_id == old(self)@.farming_token_id ==> r == Ok::<(), GuildError>(())
                && final(self)@ == (GuildFactoryView {
                remaining_rewards: old(self)@.remaining_rewards + amount@,
                ..old(self)@
            }),
    ;

    /// A deposit by an administrator.
    fn deposit_rewards_admins(&mut self, token_id: TokenIdentifier, amount: &Amount) -> (r:
        Result<(), GuildError>)
        ensures
            token_id != old(self)@.farming_token_id ==> r == Err::<(), GuildError>(
                GuildError::InvalidPayment,
            ) && final(self)@ == old(self)@,
            token_id == old(self)@.farming_token_id ==> r == Ok::<(), GuildError>(())
                && final(self)@ == (GuildFactoryView {
                remaining_rewards: old(self)@.remaining_rewards + amount@,
                ..old(self)@
            }),
    ;

    /// A closing guild hands back the rewards it did not use, and leaves the
    /// register.
    fn deposit_rewards_guild(
        &mut self,
        caller: Address,
        token_id: TokenIdentifier,
        amount: &Amount,
    ) -> (r: Result<(), GuildError>)
        ensures
            !old(self)@.is_deployed(caller)
                ==> r == Err::<(), GuildError>(GuildError::UnknownGuild),
            old(self)@.is_deployed(caller) && token_id != old(self)@.farming_token_id
                ==> r == Err::<
                (),
                GuildError,
            >(GuildError::InvalidPayment),
            r.is_err() ==> final(self)@ == old(self)@,
            old(self)@.is_deployed(caller) && token_id == old(self)@.farming_token_id ==> r.is_ok()
                && old(self)@.closes_guild(final(self)@, caller, amount@),
    ;

    /// A closing guild that has no rewards left leaves the register.
    fn close_guild_no_rewards_remaining(&mut self, caller: Address) -> (r: Result<
        (),
        GuildError,
    >)
        ensures
            !old(self)@.is_deployed(caller) ==> r == Err::<(), GuildError>(GuildError::UnknownGuild)
                && final(self)@ == old(self)@,
            old(self)@.is_deployed(caller) ==> r.is_ok() && old(self)@.closes_guild(
                final(self)@,
                caller,
                0,
            ),
    ;
}

impl GuildInteractionsModule for GuildFactory {
    fn is_closed_guild(&self, guild: Address) -> (r: bool) {
        let mut i: usize = 0;
        while i < self.closed_guilds.len()
            invariant
                i <= self.closed_guilds.len(),
                forall|j: int| 0 <= j < i ==> self.closed_guilds@[j] != guild,
            decreases self.closed_guilds.len() - i,
        {
            if self.closed_guilds[i] == guild {
                return true;
            }
            i += 1;
        }
        false
    }

    fn require_closed_guild(&self, guild: Address) -> (r: Result<(), GuildError>) {
        if self.is_closed_guild(guild) {
            Ok(())
        } else {
            Err(GuildError::GuildNotClosed)
        }
    }

    fn rewards_for_request(&self, amount: &Amount) -> (r: Amount) {
        let multiplier = Amount::from_u64(BASE_REWARD_MULTIPLIER);
        let total_request = amount.times(&multiplier);
        total_request.smaller(&self.remaining_rewards)
    }

    fn request_rewards(&mut self, caller: Address, amount: &Amount) -> (r: Result<
        Amount,
        GuildError,
    >) {
        if !self.is_deployed_guild(caller) {
            return Err(GuildError::UnknownGuild);
        }
        let granted = self.rewards_for_request(amount);
        self.remaining_rewards = self.remaining_rewards.minus(&granted);
        Ok(granted)
    }

    fn pay_out(&mut self, granted: &Amount) {
        self.remaining_rewards = self.remaining_rewards.minus(granted);
    }

    fn check_payment_is_farming_token(&self, token_id: TokenIdentifier) -> (r: Result<
        (),
        GuildError,
    >) {
        if token_id == self.guild_local_config.farming_token_id {
            Ok(())
        } else {
            Err(GuildError::InvalidPayment)
        }
    }

    fn deposit_rewards_common(&mut self, token_id: TokenIdentifier, amount: &Amount) -> (r:
        Result<(), GuildError>) {
        match self.check_payment_is_farming_token(token_id) {
            Err(e) => {
                return Err(e);
            },
            Ok(()) => {},
        }
        self.remaining_rewards = self.remaining_rewards.plus(amount);
        Ok(())
    }

    fn deposit_rewards_admins(&mut self, token_id: TokenIdentifier, amount: &Amount) -> (r:
        Result<(), GuildError>) {
        self.deposit_rewards_common(token_id, amount)
    }

    fn deposit_rewards_guild(
        &mut self,
        caller: Address,
        token_id: TokenIdentifier,
        amount: &Amount,
    ) -> (r: Result<(), GuildError>) {
        match self.find_guild(caller) {
            None => Err(GuildError::UnknownGuild),
            Some(index) => {
                if token_id != self.guild_local_config.farming_token_id {
                    return Err(GuildError::InvalidPayment);
                }
                self.remaining_rewards = self.remaining_rewards.plus(amount);
                self.remove_guild_common(index);
                assert(old(self)@.deployed_guilds[index as int].guild == caller);
                Ok(())
            },
        }
    }

    fn close_guild_no_rewards_remaining(&mut self, caller: Address) -> (r: Result<
        (),
        GuildError,
    >) {
        match self.find_guild(caller) {
            None => Err(GuildError::UnknownGuild),
            Some(index) => {
                self.remove_guild_common(index);
                assert(old(self)@.deployed_guilds[index as int].guild == caller);
                Ok(())
            },
        }
    }
}

impl GuildFactory {
    /// Stakes what a user took out of the closed guild `caller` in `guild`, on
    /// the user's behalf.
    pub fn migrate_to_other_guild(
        &mut self,
        config: &mut GuildScConfig,
        caller: Address,
        guild: &mut FarmStaking,
        original_caller: Address,
        payment: &EsdtTokenPayment,
        current_block_nonce: u64,
    ) -> (r: Result<StakingFarmToken, GuildError>)
        requires
            old(guild)@.wf(),
        ensures
            final(guild)@.wf(),
            !old(self)@.is_closed(caller) ==> r is Err && r->Err_0 == GuildError::GuildNotClosed,
            old(self)@.is_closed(caller) && !old(self)@.is_deployed(old(guild)@.own_address) ==> r
                is Err && r->Err_0 == GuildError::UnknownGuild,
            old(self)@.is_closed(caller) && old(self)@.is_deployed(old(guild)@.own_address)
                && payment@.token_identifier != old(self)@.farming_token_id ==> r is Err
                && r->Err_0 == GuildError::InvalidPayment,
            old(self)@.is_closed(caller) && old(self)@.is_deployed(old(guild)@.own_address)
                && payment@.token_identifier == old(self)@.farming_token_id && old(self)@.address
                != old(guild)@.owner ==> r is Err && r->Err_0
                == GuildError::OriginalCallerNotAllowed,
            r is Err ==> final(guild)@ == old(guild)@ && final(config)@ == old(config)@
                && final(self)@ == old(self)@,
            old(self)@.is_closed(caller) && old(self)@.is_deployed(old(guild)@.own_address)
                && payment@.token_identifier == old(self)@.farming_token_id && old(self)@.address
                == old(guild)@.owner ==> match r {
                Ok(new_farm_token) => {
                    &&& old(guild)@.stake_error(
                        old(config)@,
                        old(self)@,
                        original_caller,
                        payment@,
                        Seq::empty(),
                        current_block_nonce,
                    ) is None
                    &&& final(guild)@ == old(guild)@.after_stake(
                        old(config)@,
                        old(self)@,
                        original_caller,
                        payment@.amount,
                        current_block_nonce,
                    )
                    &&& final(config)@ == old(config)@.with_more_staked(payment@.amount)
                    &&& final(self)@ == old(guild)@.factory_after_accrual(
                        old(config)@,
                        old(self)@,
                        current_block_nonce,
                    )
                    &&& new_farm_token@.attributes == old(guild)@.staked_position(
                        old(config)@,
                        old(self)@,
                        original_caller,
                        payment@.amount,
                        Seq::empty(),
                        current_block_nonce,
                    )
                },
                Err(e) => old(guild)@.stake_error(
                    old(config)@,
                    old(self)@,
                    original_caller,
                    payment@,
                    Seq::empty(),
                    current_block_nonce,
                ) == Some(e),
            },
    {
        match self.require_closed_guild(caller) {
            Err(e) => {
                return Err(e);
            },
            Ok(()) => {},
        }
        match self.require_known_guild(guild.own_address) {
            Err(e) => {
                return Err(e);
            },
            Ok(()) => {},
        }
        if payment.token_identifier != self.guild_local_config.farming_token_id {
            return Err(GuildError::InvalidPayment);
        }
        let no_positions: Vec<StakingFarmToken> = Vec::new();
        proof {
            assert(positions_view(no_positions@) =~= Seq::empty());
        }
        let own_address = self.address;
        guild.stake_farm_endpoint(
            config,
            self,
            own_address,
            Some(original_caller),
            payment,
            &no_positions,
            current_block_nonce,
        )
    }
}

} // verus!
