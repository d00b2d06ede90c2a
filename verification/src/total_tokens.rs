//! The accounting of who has staked what: the total of the guild, and the
//! account of each staker. The guild master's account stands apart from those
//! of the users.

use vstd::prelude::*;
use crate::amount::Amount;
use crate::errors::GuildError;
use crate::farm_staking::{user_tokens_view, FarmStaking, FarmStakingView};
use crate::guild_config::GuildScConfig;
use crate::guild_factory::Address;
use crate::read_config::ReadConfigModule;
use crate::tokens_per_tier::TokensPerTier;

verus! {

/// The accounts of a guild: what is staked in it, by whom, and in which of its
/// two parts.
pub trait TokenPerTierModule: View<V = FarmStakingView> {
    /// What `user` has staked, in its two parts; nothing for one who never
    /// staked.
    fn get_user_staked_tokens(&self, user: Address) -> (r: TokensPerTier)
        ensures
            r@ == self@.tokens_of(user),
    ;

    /// The whole of what `user` has staked.
    fn get_total_stake_for_user(&self, user: Address) -> (r: Amount)
        ensures
            r@ == self@.tokens_of(user).total(),
    ;

    /// No stake is left that is above nothing and below the minimum.
    fn require_over_min_stake(&self, config: &GuildScConfig, user: Address) -> (r: Result<
        (),
        GuildError,
    >)
        ensures
            self@.over_min_stake(config@, user) ==> r == Ok::<(), GuildError>(()),
            !self@.over_min_stake(config@, user) ==> r == Err::<(), GuildError>(
                GuildError::NotEnoughStake,
            ),
    ;

    /// Adds to what is staked in the guild, which may not pass the most that
    /// the shared configuration allows.
    fn add_total_staked_tokens(&mut self, config: &GuildScConfig, tokens: &TokensPerTier) -> (r:
        Result<(), GuildError>)
        ensures
            old(self)@.total_staked_tokens() + tokens@.total() > config@.max_staked_tokens ==> r
                == Err::<(), GuildError>(GuildError::MaxStakedExceeded)
                    && final(self)@ == old(self)@,
            old(self)@.total_staked_tokens() + tokens@.total() <= config@.max_staked_tokens ==> r
                == Ok::<(), GuildError>(()) && final(self)@ == (FarmStakingView {
                total_base_staked_tokens: old(self)@.total_base_staked_tokens + tokens@.base,
                total_compounded_tokens: old(self)@.total_compounded_tokens + tokens@.compounded,
                ..old(self)@
            }),
    ;

    /// Adds to what is staked in the guild without regard to the limit, as
    /// compounding does.
    fn add_total_staked_tokens_ignore_limit(&mut self, tokens: &TokensPerTier)
        ensures
            final(self)@ == (FarmStakingView {
                total_base_staked_tokens: old(self)@.total_base_staked_tokens + tokens@.base,
                total_compounded_tokens: old(self)@.total_compounded_tokens + tokens@.compounded,
                ..old(self)@
            }),
    ;

    /// What the pool of `user` has staked: the guild master's own stake, or
    /// that of all users together.
    fn get_pool_tokens(&self, user: Address) -> (r: TokensPerTier)
        requires
            self@.pools_wf(),
        ensures
            r@ == self@.pool_of(user),
    ;

    /// Takes `tokens` from what is staked in the guild, out of the pool that
    /// `caller` belongs to. No more can leave than the pool holds.
    fn remove_total_staked_tokens(&mut self, caller: Address, tokens: &TokensPerTier) -> (r:
        Result<(), GuildError>)
        requires
            old(self)@.pools_wf(),
        ensures
            !old(self)@.pool_of(caller).holds(tokens@) ==> r == Err::<(), GuildError>(
                GuildError::NegativeResult,
            ) && final(self)@ == old(self)@,
            old(self)@.pool_of(caller).holds(tokens@) ==> r == Ok::<(), GuildError>(())
                && final(self)@ == old(self)@.with_pool_reduced(caller, tokens@),
    ;

    /// Adds `tokens` to the account of `caller`: the guild master has an
    /// account of its own, apart from those of the users.
    fn add_tokens(&mut self, caller: Address, tokens: &TokensPerTier)
        ensures
            final(self)@ == old(self)@.with_tokens_added(caller, tokens@),
    ;

    /// Takes `tokens` from the account of `caller`. No more can leave than is
    /// on it.
    fn remove_tokens(&mut self, caller: Address, tokens: &TokensPerTier) -> (r: Result<
        (),
        GuildError,
    >)
        ensures
            !old(self)@.tokens_of(caller).holds(tokens@) ==> r == Err::<(), GuildError>(
                GuildError::NegativeResult,
            ) && final(self)@ == old(self)@,
            old(self)@.tokens_of(caller).holds(tokens@) ==> r == Ok::<(), GuildError>(())
                && final(self)@ == old(self)@.with_tokens_removed(caller, tokens@),
    ;
}

impl TokenPerTierModule for FarmStaking {
    fn get_user_staked_tokens(&self, user: Address) -> (r: TokensPerTier) {
        if user != self.guild_master {
            match self.user_tokens.get(&user) {
                Some(tokens) => tokens.duplicate(),
                None => TokensPerTier::default(),
            }
        } else {
            match &self.guild_master_tokens {
                Some(tokens) => tokens.duplicate(),
                None => TokensPerTier::default(),
            }
        }
    }

    fn get_total_stake_for_user(&self, user: Address) -> (r: Amount) {
        self.get_user_staked_tokens(user).total()
    }

    fn require_over_min_stake(&self, config: &GuildScConfig, user: Address) -> (r: Result<
        (),
        GuildError,
    >) {
        let total_stake = self.get_total_stake_for_user(user);
        if total_stake.is_zero() {
            return Ok(());
        }
        let min_stake = self.get_min_stake_for_user(config, user);
        if min_stake.at_most(&total_stake) {
            Ok(())
        } else {
            Err(GuildError::NotEnoughStake)
        }
    }

    fn add_total_staked_tokens(&mut self, config: &GuildScConfig, tokens: &TokensPerTier) -> (r:
        Result<(), GuildError>) {
        let new_base = self.total_base_staked_tokens.plus(&tokens.base);
        let new_compounded = self.total_compounded_tokens.plus(&tokens.compounded);
        let new_total = new_base.plus(&new_compounded);
        if !new_total.at_most(&config.max_staked_tokens) {
            return Err(GuildError::MaxStakedExceeded);
        }
        self.total_base_staked_tokens = new_base;
        self.total_compounded_tokens = new_compounded;
        Ok(())
    }

    fn add_total_staked_tokens_ignore_limit(&mut self, tokens: &TokensPerTier) {
        self.total_base_staked_tokens = self.total_base_staked_tokens.plus(&tokens.base);
        self.total_compounded_tokens = self.total_compounded_tokens.plus(&tokens.compounded);
    }

    fn get_pool_tokens(&self, user: Address) -> (r: TokensPerTier) {
        let master = self.get_user_staked_tokens(self.guild_master);
        if user == self.guild_master {
            master
        } else {
            TokensPerTier::new(
                self.total_base_staked_tokens.minus(&master.base),
                self.total_compounded_tokens.minus(&master.compounded),
            )
        }
    }

    fn remove_total_staked_tokens(&mut self, caller: Address, tokens: &TokensPerTier) -> (r:
        Result<(), GuildError>) {
        let pool = self.get_pool_tokens(caller);
        match pool.checked_without(tokens) {
            None => Err(GuildError::NegativeResult),
            Some(reduced) => {
                self.total_base_staked_tokens = self.total_base_staked_tokens.minus(
                    &pool.base,
                ).plus(&reduced.base);
                self.total_compounded_tokens = self.total_compounded_tokens.minus(
                    &pool.compounded,
                ).plus(&reduced.compounded);
                Ok(())
            },
        }
    }

    fn add_tokens(&mut self, caller: Address, tokens: &TokensPerTier) {
        let new_tokens = self.get_user_staked_tokens(caller).plus(tokens);
        if caller != self.guild_master {
            let ghost before = self.user_tokens@;
            self.user_tokens.insert(caller, new_tokens);
            proof {
                assert(user_tokens_view(self.user_tokens@) =~= user_tokens_view(before).insert(
                    caller,
                    new_tokens@,
                ));
            }
        } else {
            self.guild_master_tokens = Some(new_tokens);
        }
    }

    fn remove_tokens(&mut self, caller: Address, tokens: &TokensPerTier) -> (r: Result<
        (),
        GuildError,
    >) {
        match self.get_user_staked_tokens(caller).checked_without(tokens) {
            None => Err(GuildError::NegativeResult),
            Some(new_tokens) => {
                if caller != self.guild_master {
                    let ghost before = self.user_tokens@;
                    self.user_tokens.insert(caller, new_tokens);
                    proof {
                        assert(user_tokens_view(self.user_tokens@) =~= user_tokens_view(
                            before,
                        ).insert(caller, new_tokens@));
                    }
                } else {
                    self.guild_master_tokens = Some(new_tokens);
                }
                Ok(())
            },
        }
    }
}

} // verus!
