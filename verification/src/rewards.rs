//! The accrual of rewards: how many reward tokens the blocks since the last
//! accrual are worth, how they are split between the guild master and the
//! users, and what that adds to each of the two reward-per-share accumulators.
//!
//! A flat amount per block is split by stake. Each share is then capped by
//! what the tier of its pool allows per block, and the smaller of the two is
//! emitted. Where the capacity of the guild does not cover the emission the
//! factory is asked for the difference; where it still does not, nothing is
//! accrued and the block checkpoint stays where it is, so that a later call
//! accrues the same window once the capacity is there.

use vstd::prelude::*;
use crate::amount::{Amount, MAX_NATIVE};
use crate::custom_rewards::CustomRewardsModule;
use crate::errors::GuildError;
use crate::farm_staking::{FarmStaking, FarmStakingView};
use crate::guild_config::GuildScConfig;
use crate::guild_factory::{Address, GuildFactory, GuildFactoryView};
use crate::guild_interactions::GuildInteractionsModule;
use crate::storage_cache::{StorageCache, StorageCacheView};
use crate::tier_types::{
    guild_master_tiers_view, GuildMasterRewardTier, GuildMasterRewardTierView, Percent, RewardTier,
    UserRewardTier, MAX_PERCENT,
};
use crate::token_attributes::{StakingFarmTokenAttributes, StakingFarmTokenAttributesView};
use crate::tokens_per_tier::TokensPerTierView;

verus! {

pub const SECONDS_IN_YEAR: u64 = 31_536_000;

/// Rewards in their two shares.
pub struct TotalRewards {
    pub guild_master: Amount,
    pub users: Amount,
}

pub struct TotalRewardsView {
    pub guild_master: nat,
    pub users: nat,
}

impl TotalRewardsView {
    pub open spec fn zero() -> TotalRewardsView {
        TotalRewardsView { guild_master: 0, users: 0 }
    }

    pub open spec fn total(self) -> nat {
        self.guild_master + self.users
    }
}

impl View for TotalRewards {
    type V = TotalRewardsView;

    open spec fn view(&self) -> TotalRewardsView {
        TotalRewardsView { guild_master: self.guild_master@, users: self.users@ }
    }
}

impl TotalRewards {
    pub fn zero() -> (r: Self)
        ensures
            r@ == TotalRewardsView::zero(),
    {
        TotalRewards { guild_master: Amount::zero(), users: Amount::zero() }
    }

    pub fn total(&self) -> (r: Amount)
        ensures
            r@ == self@.total(),
    {
        self.guild_master.plus(&self.users)
    }
}

/// The two yearly rates of a tier.
#[derive(Clone, Copy, PartialEq, Eq, Structural, Debug)]
pub struct TierRates {
    pub apr: Percent,
    pub compounded_apr: Percent,
}

pub open spec fn spec_min(a: nat, b: nat) -> nat {
    if a <= b {
        a
    } else {
        b
    }
}

/// The blocks of a year, at `seconds_per_block` seconds each.
pub open spec fn spec_blocks_in_year(seconds_per_block: u64) -> nat {
    if seconds_per_block == 0 {
        0
    } else {
        (SECONDS_IN_YEAR / seconds_per_block) as nat
    }
}

/// What `amount` may earn in one block at the yearly rate `apr`.
pub open spec fn spec_bound_amount_by_apr(amount: nat, apr: Percent, blocks_in_year: nat) -> nat {
    amount * (apr as nat) / (MAX_PERCENT as nat) / blocks_in_year
}

/// What a stake in its two parts may earn in one block at the rates of a
/// tier.
pub open spec fn spec_bound_tokens_by_apr(
    tokens: TokensPerTierView,
    apr: Percent,
    compounded_apr: Percent,
    blocks_in_year: nat,
) -> nat {
    spec_bound_amount_by_apr(tokens.base, apr, blocks_in_year) + spec_bound_amount_by_apr(
        tokens.compounded,
        compounded_apr,
        blocks_in_year,
    )
}

/// The share of all minted staking tokens that is staked, in hundredths of a
/// percent.
pub open spec fn spec_total_staked_percent(total_staked: nat, total_minted: nat) -> nat {
    total_staked * (MAX_PERCENT as nat) / total_minted
}

/// The first guild master tier at or after `from` that admits `stake`.
pub open spec fn first_guild_master_tier(
    tiers: Seq<GuildMasterRewardTierView>,
    stake: nat,
    from: int,
) -> Option<int>
    decreases tiers.len() - from,
{
    if from < 0 || from >= tiers.len() {
        None
    } else if stake <= tiers[from].max_stake {
        Some(from)
    } else {
        first_guild_master_tier(tiers, stake, from + 1)
    }
}

/// The first user tier at or after `from` that admits `percentage_staked`.
pub open spec fn first_user_tier(tiers: Seq<UserRewardTier>, percentage_staked: Percent, from: int)
    -> Option<int>
    decreases tiers.len() - from,
{
    if from < 0 || from >= tiers.len() {
        None
    } else if percentage_staked <= tiers[from].max_percentage_staked {
        Some(from)
    } else {
        first_user_tier(tiers, percentage_staked, from + 1)
    }
}

/// What a position of `amount` with the checkpoint `checkpoint` is owed once
/// the accumulator stands at `rps`.
pub open spec fn spec_calculate_rewards(
    amount: nat,
    checkpoint: nat,
    rps: nat,
    division_safety_constant: nat,
) -> nat {
    if rps <= checkpoint {
        0
    } else {
        amount * (rps - checkpoint) as nat / division_safety_constant
    }
}

impl FarmStakingView {
    /// Whether blocks have passed that the guild earns rewards for.
    pub open spec fn advances(self, current_block_nonce: u64) -> bool {
        current_block_nonce > self.last_reward_block_nonce && !self.guild_closing
    }

    /// Whether an accrual at `current_block_nonce` has anything to emit, before
    /// any cap: blocks have passed, rewards are being produced at a rate above
    /// zero, and the guild master has staked.
    pub open spec fn mints(self, current_block_nonce: u64) -> bool {
        &&& self.advances(current_block_nonce)
        &&& self.produce_rewards_enabled
        &&& self.per_block_reward_amount > 0
        &&& self.guild_master_tokens is Some
    }

    /// The flat reward for the blocks since the last accrual.
    pub open spec fn per_block_rewards(self, current_block_nonce: u64) -> nat {
        if current_block_nonce <= self.last_reward_block_nonce || !self.produce_rewards_enabled {
            0
        } else {
            self.per_block_reward_amount * (current_block_nonce
                - self.last_reward_block_nonce) as nat
        }
    }

    pub open spec fn staked_percent(self, total_staked: nat) -> nat {
        spec_total_staked_percent(total_staked, self.internal_total_staking_token_minted)
    }

    pub open spec fn guild_master_tier(self) -> Option<int> {
        first_guild_master_tier(self.internal_guild_master_tiers, self.total_base_staked_tokens, 0)
    }

    pub open spec fn user_tier(self, total_staked: nat) -> Option<int> {
        first_user_tier(self.internal_user_tiers, self.staked_percent(total_staked) as Percent, 0)
    }

    /// Why the caps cannot be computed, if they cannot: a tier table that
    /// admits no tier, a block time of zero or of more than a year, no minted
    /// tokens to take a share of, or a share beyond what a tier can be looked
    /// up by. `total_staked` is what is staked over all guilds.
    pub open spec fn apr_bound_error(self, total_staked: nat) -> Option<GuildError> {
        if self.guild_master_tokens is Some && self.guild_master_tier() is None {
            Some(GuildError::TierNotFound)
        } else if spec_blocks_in_year(self.internal_seconds_per_block) == 0 {
            Some(GuildError::DivisionByZero)
        } else if self.internal_total_staking_token_minted == 0 {
            Some(GuildError::DivisionByZero)
        } else if self.staked_percent(total_staked) > MAX_NATIVE {
            Some(GuildError::MathFailure)
        } else if self.user_tier(total_staked) is None {
            Some(GuildError::TierNotFound)
        } else {
            None
        }
    }

    /// What the tiers allow each pool to earn in one block.
    pub open spec fn amount_apr_bounded(self, total_staked: nat) -> TotalRewardsView {
        let blocks_in_year = spec_blocks_in_year(self.internal_seconds_per_block);
        let user_tier = self.internal_user_tiers[self.user_tier(total_staked).unwrap()];
        TotalRewardsView {
            guild_master: if self.guild_master_tokens is Some {
                let tier = self.internal_guild_master_tiers[self.guild_master_tier().unwrap()];
                spec_bound_tokens_by_apr(
                    self.master_tokens(),
                    tier.apr,
                    tier.compounded_apr,
                    blocks_in_year,
                )
            } else {
                0
            },
            users: spec_bound_tokens_by_apr(
                self.users_tokens(),
                user_tier.apr,
                user_tier.compounded_apr,
                blocks_in_year,
            ),
        }
    }

    /// Why an accrual at `current_block_nonce` cannot compute its emission, if
    /// it cannot.
    pub open spec fn mint_error(self, total_staked: nat, current_block_nonce: u64) -> Option<
        GuildError,
    > {
        if !self.mints(current_block_nonce) {
            None
        } else if self.total_staked_tokens() == 0 {
            Some(GuildError::DivisionByZero)
        } else {
            self.apr_bound_error(total_staked)
        }
    }

    /// The flat reward split by stake: the guild master's share is rounded
    /// down and the users get the rest, so that the two add up to the whole.
    pub open spec fn unbounded_split(self, current_block_nonce: u64) -> TotalRewardsView {
        let extra = self.per_block_rewards(current_block_nonce);
        let guild_master = self.master_tokens().total() * extra / self.total_staked_tokens();
        TotalRewardsView { guild_master, users: (extra - guild_master) as nat }
    }

    /// What an accrual at `current_block_nonce` emits to each pool: its share
    /// of the flat reward, or what its tier allows for the blocks that have
    /// passed, whichever is less.
    pub open spec fn minted_rewards(self, total_staked: nat, current_block_nonce: u64)
        -> TotalRewardsView {
        if !self.mints(current_block_nonce) {
            TotalRewardsView::zero()
        } else {
            let split = self.unbounded_split(current_block_nonce);
            let per_block = self.amount_apr_bounded(total_staked);
            let blocks = (current_block_nonce - self.last_reward_block_nonce) as nat;
            TotalRewardsView {
                guild_master: spec_min(split.guild_master, per_block.guild_master * blocks),
                users: spec_min(split.users, per_block.users * blocks),
            }
        }
    }

    /// What the guild can still accrue before it has to ask for more.
    pub open spec fn remaining_capacity(self) -> nat {
        (self.reward_capacity - self.accumulated_rewards) as nat
    }

    /// What an accrual at `current_block_nonce` asks the factory for.
    pub open spec fn needed_rewards(self, total_staked: nat, current_block_nonce: u64) -> nat {
        let total = self.minted_rewards(total_staked, current_block_nonce).total();
        if total > self.remaining_capacity() {
            (total - self.remaining_capacity()) as nat
        } else {
            0
        }
    }

    /// What the factory grants an accrual at `current_block_nonce`.
    pub open spec fn received_rewards(
        self,
        total_staked: nat,
        factory: GuildFactoryView,
        current_block_nonce: u64,
    ) -> nat {
        let needed = self.needed_rewards(total_staked, current_block_nonce);
        if needed > 0 {
            factory.rewards_for_request(needed)
        } else {
            0
        }
    }

    /// Why an accrual at `current_block_nonce` is rejected, if it is: its
    /// emission cannot be computed, or it has to ask a factory that does not
    /// know the guild.
    #[verifier::opaque]
    pub open spec fn accrual_error(
        self,
        total_staked: nat,
        factory: GuildFactoryView,
        current_block_nonce: u64,
    ) -> Option<GuildError> {
        match self.mint_error(total_staked, current_block_nonce) {
            Some(e) => Some(e),
            None => if self.needed_rewards(total_staked, current_block_nonce) > 0
                && !factory.is_deployed(self.own_address) {
                Some(GuildError::UnknownGuild)
            } else {
                None
            },
        }
    }

    /// Whether an accrual at `current_block_nonce` is covered by the capacity,
    /// with what the factory grants.
    pub open spec fn accrual_covered(
        self,
        total_staked: nat,
        factory: GuildFactoryView,
        current_block_nonce: u64,
    ) -> bool {
        self.minted_rewards(total_staked, current_block_nonce).total() <= self.remaining_capacity()
            + self.received_rewards(total_staked, factory, current_block_nonce)
    }

    /// What an accrual leaves as it is in the cache that was opened on the
    /// guild, and that neither accumulator falls.
    pub open spec fn accrued_keeps(self, cache: StorageCacheView) -> bool {
        &&& cache.contract_state == self.state
        &&& cache.farm_token_id == self.farm_token_id
        &&& cache.farming_token_id == self.farming_token_id
        &&& cache.reward_token_id == self.reward_token_id
        &&& cache.division_safety_constant == self.division_safety_constant
        &&& cache.farm_token_supply == self.farm_token_supply
        &&& cache.user_rps >= self.user_rps
        &&& cache.guild_master_rps >= self.guild_master_rps
        &&& cache.reward_reserve >= self.reward_reserve
    }

    /// The guild master's accumulator after `emission` was spread over the
    /// guild master's stake.
    pub open spec fn next_guild_master_rps(self, emission: TotalRewardsView) -> nat {
        if self.farm_token_supply != 0 && self.master_tokens().total() > 0 {
            self.guild_master_rps + emission.guild_master * self.division_safety_constant
                / self.master_tokens().total()
        } else {
            self.guild_master_rps
        }
    }

    /// The users' accumulator after `emission` was spread over the users'
    /// stake.
    pub open spec fn next_user_rps(self, emission: TotalRewardsView) -> nat {
        if self.farm_token_supply != 0 && self.users_tokens().total() > 0 {
            self.user_rps + emission.users * self.division_safety_constant
                / self.users_tokens().total()
        } else {
            self.user_rps
        }
    }

    /// The cache of a call after the accrual at `current_block_nonce`.
    ///
    /// What the factory granted always counts towards the capacity. Where the
    /// emission is covered, it goes to the reserve and to the accrued total,
    /// each accumulator rises by its pool's emission per staked token, and the
    /// block checkpoint moves on. Where it is not, nothing else changes.
    #[verifier::opaque]
    pub open spec fn accrued(
        self,
        total_staked: nat,
        factory: GuildFactoryView,
        current_block_nonce: u64,
    ) -> StorageCacheView {
        let opened = StorageCacheView::of(self);
        let emission = self.minted_rewards(total_staked, current_block_nonce);
        let received = self.received_rewards(total_staked, factory, current_block_nonce);
        if self.accrual_covered(total_staked, factory, current_block_nonce) {
            StorageCacheView {
                reward_reserve: self.reward_reserve + emission.total(),
                accumulated_rewards: self.accumulated_rewards + emission.total(),
                reward_capacity: self.reward_capacity + received,
                guild_master_rps: self.next_guild_master_rps(emission),
                user_rps: self.next_user_rps(emission),
                last_reward_block_nonce: if self.advances(current_block_nonce) {
                    current_block_nonce
                } else {
                    self.last_reward_block_nonce
                },
                requested_rewards: received,
                ..opened
            }
        } else {
            StorageCacheView {
                reward_capacity: self.reward_capacity + received,
                requested_rewards: received,
                ..opened
            }
        }
    }
}

/// The tier that a lookup in the list itself finds is the one that the
/// lookup in the list's view finds.
pub proof fn lemma_first_guild_master_tier(
    tiers: Seq<GuildMasterRewardTier>,
    stake: nat,
    from: int,
    found: Option<int>,
)
    requires
        0 <= from <= tiers.len(),
        match found {
            Some(index) => from <= index < tiers.len() && tiers[index].in_range(stake, 0)
                && forall|j: int| from <= j < index ==> !(#[trigger] tiers[j]).in_range(stake, 0),
            None => forall|j: int| from <= j < tiers.len() ==> !(#[trigger] tiers[j]).in_range(
                stake,
                0,
            ),
        },
    ensures
        first_guild_master_tier(guild_master_tiers_view(tiers), stake, from) == found,
    decreases tiers.len() - from,
{
    let views = guild_master_tiers_view(tiers);
    if from < tiers.len() {
        assert(views[from] == tiers[from]@);
        if tiers[from].in_range(stake, 0) {
        } else {
            lemma_first_guild_master_tier(tiers, stake, from + 1, found);
        }
    }
}

pub proof fn lemma_first_user_tier(
    tiers: Seq<UserRewardTier>,
    percentage_staked: Percent,
    from: int,
    found: Option<int>,
)
    requires
        0 <= from <= tiers.len(),
        match found {
            Some(index) => from <= index < tiers.len() && tiers[index].in_range(
                0,
                percentage_staked,
            ) && forall|j: int|
                from <= j < index ==> !(#[trigger] tiers[j]).in_range(0, percentage_staked),
            None => forall|j: int|
                from <= j < tiers.len() ==> !(#[trigger] tiers[j]).in_range(0, percentage_staked),
        },
    ensures
        first_user_tier(tiers, percentage_staked, from) == found,
    decreases tiers.len() - from,
{
    if from < tiers.len() {
        if tiers[from].in_range(0, percentage_staked) {
        } else {
            lemma_first_user_tier(tiers, percentage_staked, from + 1, found);
        }
    }
}

/// A share of the flat reward is at most the flat reward.
pub proof fn lemma_share_at_most_whole(part: nat, whole: nat, extra: nat)
    requires
        part <= whole,
        whole > 0,
    ensures
        part * extra / whole <= extra,
{
    assert(part * extra <= whole * extra) by (nonlinear_arith)
        requires
            part <= whole,
    ;
    assert(part * extra / whole <= extra) by (nonlinear_arith)
        requires
            part * extra <= whole * extra,
            whole > 0,
    ;
}

/// The production of rewards, and the accumulator that goes with a staker.
pub trait RewardsModule: View<V = FarmStakingView> {
    /// Starts the production of rewards from the block `current_block_nonce`
    /// on.
    fn start_produce_rewards(&mut self, current_block_nonce: u64) -> (r: Result<(), GuildError>)
        ensures
            old(self)@.per_block_reward_amount == 0 ==> r == Err::<(), GuildError>(
                GuildError::ZeroRewardAmount,
            ),
            old(self)@.per_block_reward_amount != 0 && old(self)@.produce_rewards_enabled ==> r
                == Err::<(), GuildError>(GuildError::AlreadyProducingRewards),
            r.is_err() ==> final(self)@ == old(self)@,
            old(self)@.per_block_reward_amount != 0 && !old(self)@.produce_rewards_enabled ==> r
                == Ok::<(), GuildError>(()) && final(self)@ == (FarmStakingView {
                produce_rewards_enabled: true,
                last_reward_block_nonce: current_block_nonce,
                ..old(self)@
            }),
    ;

    fn produces_per_block_rewards(&self) -> (r: bool)
        ensures
            r == self@.produce_rewards_enabled,
    ;

    /// The accumulator that the positions of `user` are measured against: the
    /// guild master has one of its own.
    fn get_rps_by_user<'a>(&self, user: Address, storage_cache: &'a StorageCache) -> (r:
        &'a Amount)
        ensures
            r@ == storage_cache@.rps_of(self@, user),
    ;
}

impl RewardsModule for FarmStaking {
    fn start_produce_rewards(&mut self, current_block_nonce: u64) -> (r: Result<(), GuildError>) {
        if self.per_block_reward_amount.is_zero() {
            return Err(GuildError::ZeroRewardAmount);
        }
        if self.produce_rewards_enabled {
            return Err(GuildError::AlreadyProducingRewards);
        }
        self.produce_rewards_enabled = true;
        self.last_reward_block_nonce = current_block_nonce;
        Ok(())
    }

    fn produces_per_block_rewards(&self) -> (r: bool) {
        self.produce_rewards_enabled
    }

    fn get_rps_by_user<'a>(&self, user: Address, storage_cache: &'a StorageCache) -> (r:
        &'a Amount) {
        if user != self.guild_master {
            &storage_cache.user_rps
        } else {
            &storage_cache.guild_master_rps
        }
    }
}

/// The reward logic of a guild, for the one kind of position there is.
pub struct FarmStakingWrapper {}

/// The reward logic of a guild: what an accrual emits, what it does to the
/// cache of a call, and what a position is owed.
pub trait FarmContract: Sized {
    /// The flat reward for the blocks between the two nonces.
    fn calculate_per_block_rewards(
        sc: &FarmStaking,
        current_block_nonce: u64,
        last_reward_block_nonce: u64,
    ) -> (r: Amount)
        ensures
            r@ == if current_block_nonce <= last_reward_block_nonce
                || !sc@.produce_rewards_enabled {
                0
            } else {
                sc@.per_block_reward_amount * (current_block_nonce - last_reward_block_nonce) as nat
            },
    ;

    /// What an accrual at `current_block_nonce` emits to each pool.
    fn mint_per_block_rewards(sc: &FarmStaking, config: &GuildScConfig, current_block_nonce: u64)
        -> (r: Result<TotalRewards, GuildError>)
        requires
            sc@.wf(),
        ensures
            match r {
                Ok(rewards) => sc@.mint_error(
                    config@.total_staking_token_staked,
                    current_block_nonce,
                ) is None && rewards@ == sc@.minted_rewards(
                    config@.total_staking_token_staked,
                    current_block_nonce,
                ),
                Err(e) => sc@.mint_error(config@.total_staking_token_staked, current_block_nonce)
                    == Some(e),
            },
    ;

    /// Accrues the rewards for the blocks up to `current_block_nonce` into the
    /// cache of a call that has just opened it. The factory is only asked what
    /// it would grant; it pays out when the cache is committed.
    fn generate_aggregated_rewards(
        sc: &FarmStaking,
        storage_cache: &mut StorageCache,
        config: &GuildScConfig,
        factory: &GuildFactory,
        current_block_nonce: u64,
    ) -> (r: Result<(), GuildError>)
        requires
            sc@.wf(),
            old(storage_cache)@ == StorageCacheView::of(sc@),
        ensures
            match r {
                Ok(()) => sc@.accrual_error(
                    config@.total_staking_token_staked,
                    factory@,
                    current_block_nonce,
                ) is None && final(storage_cache)@ == sc@.accrued(
                    config@.total_staking_token_staked,
                    factory@,
                    current_block_nonce,
                ),
                Err(e) => sc@.accrual_error(
                    config@.total_staking_token_staked,
                    factory@,
                    current_block_nonce,
                ) == Some(e) && final(storage_cache)@ == old(storage_cache)@,
            },
            r.is_ok() ==> final(storage_cache)@.requested_rewards <= factory@.remaining_rewards,
            r.is_ok()
                ==> final(storage_cache)@.accumulated_rewards <= final(
                    storage_cache)@.reward_capacity,
            r.is_ok() ==> sc@.accrued_keeps(final(storage_cache)@),
    ;

    /// What a position is owed: its amount times the rise of its owner's
    /// accumulator since the position's checkpoint, scaled down by the
    /// division safety constant. Nothing where the accumulator has not risen.
    fn calculate_rewards(
        sc: &FarmStaking,
        caller: Address,
        farm_token_amount: &Amount,
        token_attributes: &StakingFarmTokenAttributes,
        storage_cache: &StorageCache,
    ) -> (r: Amount)
        requires
            storage_cache@.division_safety_constant > 0,
        ensures
            r@ == spec_calculate_rewards(
                farm_token_amount@,
                token_attributes@.reward_per_share,
                storage_cache@.rps_of(sc@, caller),
                storage_cache@.division_safety_constant,
            ),
    ;

    /// A fresh position: nothing compounded, and the checkpoint at the
    /// accumulator as it stands.
    fn create_enter_farm_initial_attributes(
        farming_token_amount: Amount,
        current_reward_per_share: Amount,
    ) -> (r: StakingFarmTokenAttributes)
        ensures
            r@ == (StakingFarmTokenAttributesView {
                reward_per_share: current_reward_per_share@,
                compounded_reward: 0,
                current_farm_amount: farming_token_amount@,
            }),
    ;

    /// The position after a claim: as before, with the checkpoint moved up.
    fn create_claim_rewards_initial_attributes(
        first_token_attributes: StakingFarmTokenAttributes,
        current_reward_per_share: Amount,
    ) -> (r: StakingFarmTokenAttributes)
        ensures
            r@ == (StakingFarmTokenAttributesView {
                reward_per_share: current_reward_per_share@,
                ..first_token_attributes@
            }),
    ;

    /// The position after compounding: the reward is added to the amount and
    /// to its compounded part, and the checkpoint moved up.
    fn create_compound_rewards_initial_attributes(
        first_token_attributes: StakingFarmTokenAttributes,
        current_reward_per_share: Amount,
        reward: &Amount,
    ) -> (r: StakingFarmTokenAttributes)
        ensures
            r@ == (StakingFarmTokenAttributesView {
                reward_per_share: current_reward_per_share@,
                compounded_reward: first_token_attributes@.compounded_reward + reward@,
                current_farm_amount: first_token_attributes@.current_farm_amount + reward@,
            }),
    ;
}

impl FarmContract for FarmStakingWrapper {
    fn calculate_per_block_rewards(
        sc: &FarmStaking,
        current_block_nonce: u64,
        last_reward_block_nonce: u64,
    ) -> (r: Amount) {
        if current_block_nonce <= last_reward_block_nonce || !sc.produces_per_block_rewards() {
            return Amount::zero();
        }
        let block_nonce_diff = current_block_nonce - last_reward_block_nonce;
        sc.per_block_reward_amount.times(&Amount::from_u64(block_nonce_diff))
    }

    fn mint_per_block_rewards(sc: &FarmStaking, config: &GuildScConfig, current_block_nonce: u64)
        -> (r: Result<TotalRewards, GuildError>) {
        let last_reward_nonce = sc.last_reward_block_nonce;
        if current_block_nonce <= last_reward_nonce || sc.guild_closing {
            return Ok(TotalRewards::zero());
        }
        let extra_rewards_unbounded = Self::calculate_per_block_rewards(
            sc,
            current_block_nonce,
            last_reward_nonce,
        );
        if extra_rewards_unbounded.is_zero() {
            proof {
                if sc@.produce_rewards_enabled && sc@.per_block_reward_amount > 0 {
                    assert(sc@.per_block_reward_amount * (current_block_nonce
                        - last_reward_nonce) as nat > 0) by (nonlinear_arith)
                        requires
                            sc@.per_block_reward_amount > 0,
                            current_block_nonce > last_reward_nonce,
                    ;
                }
            }
            return Ok(TotalRewards::zero());
        }
        let guild_master_tokens = match &sc.guild_master_tokens {
            Some(tokens) => tokens,
            None => {
                return Ok(TotalRewards::zero());
            },
        };
        proof {
            assert(sc@.per_block_reward_amount > 0) by (nonlinear_arith)
                requires
                    sc@.per_block_reward_amount * (current_block_nonce - last_reward_nonce) as nat
                        > 0,
            ;
        }
        let total_tokens = sc.total_base_staked_tokens.plus(&sc.total_compounded_tokens);
        if total_tokens.is_zero() {
            return Err(GuildError::DivisionByZero);
        }
        let guild_master_rewards = guild_master_tokens.total().times(
            &extra_rewards_unbounded,
        ).divided_by(&total_tokens);
        proof {
            lemma_share_at_most_whole(
                sc@.master_tokens().total(),
                sc@.total_staked_tokens(),
                extra_rewards_unbounded@,
            );
        }
        let user_rewards = extra_rewards_unbounded.minus(&guild_master_rewards);
        let per_block = match sc.get_amount_apr_bounded(config) {
            Ok(bounded) => bounded,
            Err(e) => {
                return Err(e);
            },
        };
        let block_nonce_diff = Amount::from_u64(current_block_nonce - last_reward_nonce);
        let guild_master_bounded = per_block.guild_master.times(&block_nonce_diff);
        let users_bounded = per_block.users.times(&block_nonce_diff);
        Ok(
            TotalRewards {
                guild_master: guild_master_rewards.smaller(&guild_master_bounded),
                users: user_rewards.smaller(&users_bounded),
            },
        )
    }

    fn generate_aggregated_rewards(
        sc: &FarmStaking,
        storage_cache: &mut StorageCache,
        config: &GuildScConfig,
        factory: &GuildFactory,
        current_block_nonce: u64,
    ) -> (r: Result<(), GuildError>) {
        reveal(FarmStakingView::accrued);
        reveal(FarmStakingView::accrual_error);
        let mut remaining_rewards = storage_cache.reward_capacity.minus(
            &storage_cache.accumulated_rewards,
        );
        let split_rewards = match Self::mint_per_block_rewards(sc, config, current_block_nonce) {
            Ok(rewards) => rewards,
            Err(e) => {
                return Err(e);
            },
        };
        let total_reward = split_rewards.total();
        if remaining_rewards.less_than(&total_reward) {
            let needed_rewards = total_reward.minus(&remaining_rewards);
            let received_rewards = match sc.request_rewards(storage_cache, factory,
                &needed_rewards) {
                Ok(received) => received,
                Err(e) => {
                    return Err(e);
                },
            };
            remaining_rewards = remaining_rewards.plus(&received_rewards);
        }
        // Where the capacity still falls short, the window is left for a later call.
        if remaining_rewards.less_than(&total_reward) {
            return Ok(());
        }
        storage_cache.reward_reserve = storage_cache.reward_reserve.plus(&total_reward);
        storage_cache.accumulated_rewards = storage_cache.accumulated_rewards.plus(&total_reward);
        if current_block_nonce > sc.last_reward_block_nonce && !sc.guild_closing {
            storage_cache.last_reward_block_nonce = current_block_nonce;
        }
        if storage_cache.farm_token_supply.is_zero() {
            return Ok(());
        }
        let (guild_master_total, users_total) = match &sc.guild_master_tokens {
            Some(tokens) => (
                tokens.total(),
                sc.total_base_staked_tokens.minus(&tokens.base).plus(
                    &sc.total_compounded_tokens.minus(&tokens.compounded),
                ),
            ),
            None => (
                Amount::zero(),
                sc.total_base_staked_tokens.plus(&sc.total_compounded_tokens),
            ),
        };
        if !guild_master_total.is_zero() {
            let increase = split_rewards.guild_master.times(
                &storage_cache.division_safety_constant,
            ).divided_by(&guild_master_total);
            storage_cache.guild_master_rps = storage_cache.guild_master_rps.plus(&increase);
        }
        if !users_total.is_zero() {
            let increase = split_rewards.users.times(
                &storage_cache.division_safety_constant,
            ).divided_by(&users_total);
            storage_cache.user_rps = storage_cache.user_rps.plus(&increase);
        }
        Ok(())
    }

    fn calculate_rewards(
        sc: &FarmStaking,
        caller: Address,
        farm_token_amount: &Amount,
        token_attributes: &StakingFarmTokenAttributes,
        storage_cache: &StorageCache,
    ) -> (r: Amount) {
        let storage_rps = sc.get_rps_by_user(caller, storage_cache);
        if storage_rps.at_most(&token_attributes.reward_per_share) {
            return Amount::zero();
        }
        let rps_diff = storage_rps.minus(&token_attributes.reward_per_share);
        farm_token_amount.times(&rps_diff).divided_by(&storage_cache.division_safety_constant)
    }

    fn create_enter_farm_initial_attributes(
        farming_token_amount: Amount,
        current_reward_per_share: Amount,
    ) -> (r: StakingFarmTokenAttributes) {
        StakingFarmTokenAttributes {
            reward_per_share: current_reward_per_share,
            compounded_reward: Amount::zero(),
            current_farm_amount: farming_token_amount,
        }
    }

    fn create_claim_rewards_initial_attributes(
        first_token_attributes: StakingFarmTokenAttributes,
        current_reward_per_share: Amount,
    ) -> (r: StakingFarmTokenAttributes) {
        StakingFarmTokenAttributes {
            reward_per_share: current_reward_per_share,
            compounded_reward: first_token_attributes.compounded_reward,
            current_farm_amount: first_token_attributes.current_farm_amount,
        }
    }

    fn create_compound_rewards_initial_attributes(
        first_token_attributes: StakingFarmTokenAttributes,
        current_reward_per_share: Amount,
        reward: &Amount,
    ) -> (r: StakingFarmTokenAttributes) {
        let new_pos_compounded_reward = first_token_attributes.compounded_reward.plus(reward);
        let new_pos_current_farm_amount = first_token_attributes.current_farm_amount.plus(reward);
        StakingFarmTokenAttributes {
            reward_per_share: current_reward_per_share,
            compounded_reward: new_pos_compounded_reward,
            current_farm_amount: new_pos_current_farm_amount,
        }
    }
}

} // verus!
