//! What a guild reads from the shared configuration for one of its stakers.

use vstd::prelude::*;
use crate::amount::Amount;
use crate::farm_staking::{FarmStaking, FarmStakingView};
use crate::guild_config::{Epoch, GuildScConfig};
use crate::guild_factory::Address;
use crate::tier_types::{is_first_in_range, none_in_range, Percent, RewardTier};

verus! {

/// The limits that the shared configuration sets for a staker of a guild: they
/// differ between the guild master and the users.
pub trait ReadConfigModule: View<V = FarmStakingView> {
    /// Finds the tier that a stake, or a staked share, falls into: the first one
    /// in the list whose bound admits it. The list is walked in order; where no
    /// tier admits it, the table is misconfigured and the lookup fails.
    fn find_tier_common<'a, T: RewardTier>(
        &self,
        total_farming_tokens: &Amount,
        percentage_staked: Percent,
        tiers: &'a Vec<T>,
    ) -> (r: Option<usize>)
        ensures
            match r {
                Some(index) => is_first_in_range(
                    tiers@,
                    total_farming_tokens@,
                    percentage_staked,
                    index as int,
                ),
                None => none_in_range(tiers@, total_farming_tokens@, percentage_staked),
            },
    ;

    fn get_min_stake_for_user(&self, config: &GuildScConfig, user: Address) -> (r: Amount)
        ensures
            r@ == self@.min_stake_for(config@, user),
    ;

    fn get_min_unbond_epochs_for_user(&self, config: &GuildScConfig, user: Address) -> (r:
        Epoch)
        ensures
            r == self@.min_unbond_epochs_for(config@, user),
    ;
}

impl ReadConfigModule for FarmStaking {
    fn find_tier_common<'a, T: RewardTier>(
        &self,
        total_farming_tokens: &Amount,
        percentage_staked: Percent,
        tiers: &'a Vec<T>,
    ) -> (r: Option<usize>) {
        let mut i: usize = 0;
        while i < tiers.len()
            invariant
                i <= tiers.len(),
                forall|j: int|
                    0 <= j < i ==> !(#[trigger] tiers@[j]).in_range(
                        total_farming_tokens@,
                        percentage_staked,
                    ),
            decreases tiers.len() - i,
        {
            if tiers[i].is_in_range(total_farming_tokens, percentage_staked) {
                return Some(i);
            }
            i += 1;
        }
        None
    }

    fn get_min_stake_for_user(&self, config: &GuildScConfig, user: Address) -> (r: Amount) {
        if user != self.guild_master {
            config.min_stake_user.duplicate()
        } else {
            config.min_stake_guild_master.duplicate()
        }
    }

    fn get_min_unbond_epochs_for_user(&self, config: &GuildScConfig, user: Address) -> (r:
        Epoch) {
        if user != self.guild_master {
            config.min_unbond_epochs_user
        } else {
            config.min_unbond_epochs_guild_master
        }
    }
}

} // verus!
