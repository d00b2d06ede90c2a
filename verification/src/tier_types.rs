//! Reward tiers: a bracket of stake and the yearly rates that go with it.

use vstd::prelude::*;
use crate::amount::Amount;

verus! {

/// A rate or share in hundredths of a percent.
pub type Percent = u64;

/// What stands for 100%.
pub const MAX_PERCENT: Percent = 10_000;

/// A bracket for the guild master, bounded above by a staked amount.
pub struct GuildMasterRewardTier {
    pub max_stake: Amount,
    pub apr: Percent,
    pub compounded_apr: Percent,
}

pub struct GuildMasterRewardTierView {
    pub max_stake: nat,
    pub apr: Percent,
    pub compounded_apr: Percent,
}

impl View for GuildMasterRewardTier {
    type V = GuildMasterRewardTierView;

    open spec fn view(&self) -> GuildMasterRewardTierView {
        GuildMasterRewardTierView {
            max_stake: self.max_stake@,
            apr: self.apr,
            compounded_apr: self.compounded_apr,
        }
    }
}

/// A bracket for users, bounded above by the share of all minted tokens that
/// is staked.
#[derive(Clone, Copy, PartialEq, Eq, Structural, Debug)]
pub struct UserRewardTier {
    pub max_percentage_staked: Percent,
    pub apr: Percent,
    pub compounded_apr: Percent,
}

/// What the two kinds of bracket have in common. A guild master's bracket is
/// found by a staked amount and a user's by a staked share; each looks at its
/// own argument only.
pub trait RewardTier: Sized {
    spec fn in_range(&self, stake: nat, percentage_staked: Percent) -> bool;

    spec fn below(&self, other: &Self) -> bool;

    spec fn same_bound(&self, other: &Self) -> bool;

    spec fn apr_value(&self) -> Percent;

    spec fn compounded_apr_value(&self) -> Percent;

    fn is_in_range(&self, user_stake: &Amount, percentage_staked: Percent) -> (r: bool)
        ensures
            r == self.in_range(user_stake@, percentage_staked),
    ;

    fn is_below(&self, other: &Self) -> (r: bool)
        ensures
            r == self.below(other),
    ;

    fn is_below_or_equal(&self, other: &Self) -> (r: bool)
        ensures
            r == (self.below(other) || self.same_bound(other)),
    ;

    fn is_equal(&self, other: &Self) -> (r: bool)
        ensures
            r == self.same_bound(other),
    ;

    fn get_apr(&self) -> (r: Percent)
        ensures
            r == self.apr_value(),
    ;

    fn get_compounded_apr(&self) -> (r: Percent)
        ensures
            r == self.compounded_apr_value(),
    ;

    /// Takes both rates from `other` and keeps the bound.
    fn set_apr(&mut self, other: &Self)
        ensures
            final(self).apr_value() == other.apr_value(),
            final(self).compounded_apr_value() == other.compounded_apr_value(),
            final(self).same_bound(old(self)),
            forall|stake: nat, percentage: Percent|
                final(self).in_range(stake, percentage) == old(self).in_range(stake, percentage),
    ;
}

impl GuildMasterRewardTier {
    pub fn new(max_stake: Amount, apr: Percent, compounded_apr: Percent) -> (r: Self)
        ensures
            r@ == (GuildMasterRewardTierView { max_stake: max_stake@, apr, compounded_apr }),
    {
        GuildMasterRewardTier { max_stake, apr, compounded_apr }
    }

    pub fn duplicate(&self) -> (r: Self)
        ensures
            r@ == self@,
    {
        GuildMasterRewardTier {
            max_stake: self.max_stake.duplicate(),
            apr: self.apr,
            compounded_apr: self.compounded_apr,
        }
    }
}

impl RewardTier for GuildMasterRewardTier {
    open spec fn in_range(&self, stake: nat, percentage_staked: Percent) -> bool {
        stake <= self@.max_stake
    }

    open spec fn below(&self, other: &Self) -> bool {
        self@.max_stake < other@.max_stake
    }

    open spec fn same_bound(&self, other: &Self) -> bool {
        self@.max_stake == other@.max_stake
    }

    open spec fn apr_value(&self) -> Percent {
        self.apr
    }

    open spec fn compounded_apr_value(&self) -> Percent {
        self.compounded_apr
    }

    fn is_in_range(&self, user_stake: &Amount, _percentage_staked: Percent) -> (r: bool) {
        user_stake.at_most(&self.max_stake)
    }

    fn is_below(&self, other: &Self) -> (r: bool) {
        self.max_stake.less_than(&other.max_stake)
    }

    fn is_below_or_equal(&self, other: &Self) -> (r: bool) {
        self.max_stake.at_most(&other.max_stake)
    }

    fn is_equal(&self, other: &Self) -> (r: bool) {
        self.max_stake.same_as(&other.max_stake)
    }

    fn get_apr(&self) -> (r: Percent) {
        self.apr
    }

    fn get_compounded_apr(&self) -> (r: Percent) {
        self.compounded_apr
    }

    fn set_apr(&mut self, other: &Self)
        ensures
            final(self)@ == (GuildMasterRewardTierView {
                apr: other.apr,
                compounded_apr: other.compounded_apr,
                ..old(self)@
            }),
    {
        self.apr = other.apr;
        self.compounded_apr = other.compounded_apr;
    }
}

impl UserRewardTier {
    pub fn new(max_percentage_staked: Percent, apr: Percent, compounded_apr: Percent) -> (r: Self)
        ensures
            r == (UserRewardTier { max_percentage_staked, apr, compounded_apr }),
    {
        UserRewardTier { max_percentage_staked, apr, compounded_apr }
    }

    /// A share above zero and at most 100%, and rates that are not zero.
    pub open spec fn valid(&self) -> bool {
        &&& 0 < self.max_percentage_staked <= MAX_PERCENT
        &&& self.apr != 0
    }
}

impl RewardTier for UserRewardTier {
    open spec fn in_range(&self, stake: nat, percentage_staked: Percent) -> bool {
        percentage_staked <= self.max_percentage_staked
    }

    open spec fn below(&self, other: &Self) -> bool {
        self.max_percentage_staked < other.max_percentage_staked
    }

    open spec fn same_bound(&self, other: &Self) -> bool {
        self.max_percentage_staked == other.max_percentage_staked
    }

    open spec fn apr_value(&self) -> Percent {
        self.apr
    }

    open spec fn compounded_apr_value(&self) -> Percent {
        self.compounded_apr
    }

    fn is_in_range(&self, _user_stake: &Amount, percentage_staked: Percent) -> (r: bool) {
        percentage_staked <= self.max_percentage_staked
    }

    fn is_below(&self, other: &Self) -> (r: bool) {
        self.max_percentage_staked < other.max_percentage_staked
    }

    fn is_below_or_equal(&self, other: &Self) -> (r: bool) {
        self.max_percentage_staked <= other.max_percentage_staked
    }

    fn is_equal(&self, other: &Self) -> (r: bool) {
        self.max_percentage_staked == other.max_percentage_staked
    }

    fn get_apr(&self) -> (r: Percent) {
        self.apr
    }

    fn get_compounded_apr(&self) -> (r: Percent) {
        self.compounded_apr
    }

    fn set_apr(&mut self, other: &Self)
        ensures
            *final(self) == (UserRewardTier {
                apr: other.apr,
                compounded_apr: other.compounded_apr,
                ..*old(self)
            }),
    {
        self.apr = other.apr;
        self.compounded_apr = other.compounded_apr;
    }
}

/// The views of a list of guild master tiers, in order.
pub open spec fn guild_master_tiers_view(tiers: Seq<GuildMasterRewardTier>) -> Seq<
    GuildMasterRewardTierView,
> {
    Seq::new(tiers.len(), |i: int| tiers[i]@)
}

/// The index of the first tier that `stake` and `percentage_staked` fall into,
/// if there is one.
pub open spec fn is_first_in_range<T: RewardTier>(
    tiers: Seq<T>,
    stake: nat,
    percentage_staked: Percent,
    index: int,
) -> bool {
    &&& 0 <= index < tiers.len()
    &&& tiers[index].in_range(stake, percentage_staked)
    &&& forall|j: int| 0 <= j < index ==> !(#[trigger] tiers[j]).in_range(stake, percentage_staked)
}

pub open spec fn none_in_range<T: RewardTier>(
    tiers: Seq<T>,
    stake: nat,
    percentage_staked: Percent,
) -> bool {
    forall|j: int| 0 <= j < tiers.len()
        ==> !(#[trigger] tiers[j]).in_range(stake, percentage_staked)
}

} // verus!
