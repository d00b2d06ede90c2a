//! What the calls on positions have in common: the checks on what is handed
//! in, the rewards that a list of positions is owed, and their merge into one.

use vstd::prelude::*;
use crate::amount::Amount;
use crate::errors::GuildError;
use crate::farm_staking::{FarmStaking, FarmStakingView, State};
use crate::guild_factory::Address;
use crate::rewards::{spec_calculate_rewards, FarmContract, FarmStakingWrapper};
use crate::storage_cache::{StorageCache, StorageCacheView};
use crate::token_attributes::{
    lemma_merged_is_well_formed, lemma_part_is_well_formed, FixedSupplyToken, StakingFarmToken,
    StakingFarmTokenAttributesView, StakingFarmTokenView, TokenIdentifier,
};

verus! {

/// Why a guild in the state of `cache` takes no calls on positions, if it
/// does not: it is not active, or it has no position token yet.
pub open spec fn contract_state_error(cache: StorageCacheView) -> Option<GuildError> {
    if cache.contract_state != State::Active {
        Some(GuildError::NotActive)
    } else if cache.farm_token_id is None {
        Some(GuildError::NoFarmToken)
    } else {
        None
    }
}

/// Whether every position is a well-formed one of the token `farm_token_id`.
pub open spec fn all_positions_valid(
    tokens: Seq<StakingFarmTokenView>,
    farm_token_id: TokenIdentifier,
) -> bool {
    forall|i: int|
        0 <= i < tokens.len() ==> (#[trigger] tokens[i]).payment.token_identifier == farm_token_id
            && tokens[i].wf()
}

/// The views of a list of positions, in order.
pub open spec fn positions_view(tokens: Seq<StakingFarmToken>) -> Seq<StakingFarmTokenView> {
    Seq::new(tokens.len(), |i: int| tokens[i]@)
}

/// What the first `count` positions hold together.
pub open spec fn amounts_sum(tokens: Seq<StakingFarmTokenView>, count: int) -> nat
    decreases count,
{
    if count <= 0 {
        0
    } else {
        amounts_sum(tokens, count - 1) + tokens[count - 1].payment.amount
    }
}

/// What the first `count` positions hold of compounded rewards together.
pub open spec fn compounded_sum(tokens: Seq<StakingFarmTokenView>, count: int) -> nat
    decreases count,
{
    if count <= 0 {
        0
    } else {
        compounded_sum(tokens, count - 1) + tokens[count - 1].part().compounded_reward
    }
}

/// What the first `count` positions are owed together once the accumulator
/// stands at `rps`: each is owed for itself, and rounded down for itself.
pub open spec fn owed_rewards(
    tokens: Seq<StakingFarmTokenView>,
    rps: nat,
    division_safety_constant: nat,
    count: int,
) -> nat
    decreases count,
{
    if count <= 0 {
        0
    } else {
        owed_rewards(tokens, rps, division_safety_constant, count - 1) + spec_calculate_rewards(
            tokens[count - 1].payment.amount,
            tokens[count - 1].attributes.reward_per_share,
            rps,
            division_safety_constant,
        )
    }
}

/// `base` merged with the positions from `from` up to `count`, one after the
/// other.
pub open spec fn merged_with(
    base: StakingFarmTokenAttributesView,
    tokens: Seq<StakingFarmTokenView>,
    from: int,
    count: int,
) -> StakingFarmTokenAttributesView
    decreases count - from,
{
    if count <= from {
        base
    } else {
        merged_with(base, tokens, from, count - 1).merged(tokens[count - 1].part())
    }
}

/// A merge adds up the amounts and the compounded parts, and keeps a
/// well-formed position well formed.
pub proof fn lemma_merged_with(
    base: StakingFarmTokenAttributesView,
    tokens: Seq<StakingFarmTokenView>,
    farm_token_id: TokenIdentifier,
    from: int,
    count: int,
)
    requires
        base.wf(),
        all_positions_valid(tokens, farm_token_id),
        0 <= from <= count <= tokens.len(),
    ensures
        merged_with(base, tokens, from, count).wf(),
        merged_with(base, tokens, from, count).current_farm_amount == base.current_farm_amount
            + amounts_sum(tokens, count) - amounts_sum(tokens, from),
        merged_with(base, tokens, from, count).compounded_reward == base.compounded_reward
            + compounded_sum(tokens, count) - compounded_sum(tokens, from),
    decreases count - from,
{
    if count > from {
        lemma_merged_with(base, tokens, farm_token_id, from, count - 1);
        let token = tokens[count - 1];
        assert(token.wf());
        lemma_part_is_well_formed(token.attributes, token.payment.amount);
        lemma_merged_is_well_formed(merged_with(base, tokens, from, count - 1), token.part());
    }
}

/// The compounded parts of positions are parts of their amounts.
pub proof fn lemma_compounded_sum_at_most_amounts(
    tokens: Seq<StakingFarmTokenView>,
    farm_token_id: TokenIdentifier,
    count: int,
)
    requires
        all_positions_valid(tokens, farm_token_id),
        0 <= count <= tokens.len(),
    ensures
        compounded_sum(tokens, count) <= amounts_sum(tokens, count),
    decreases count,
{
    if count > 0 {
        lemma_compounded_sum_at_most_amounts(tokens, farm_token_id, count - 1);
        let token = tokens[count - 1];
        assert(token.wf());
        lemma_part_is_well_formed(token.attributes, token.payment.amount);
    }
}

/// The checks on the state of a guild and on the positions that are handed
/// in.
pub trait BaseFarmValidationModule: View<V = FarmStakingView> {
    /// Calls on positions are taken by an active guild that has its position
    /// token.
    fn validate_contract_state(storage_cache: &StorageCache) -> (r: Result<
        TokenIdentifier,
        GuildError,
    >)
        ensures
            match r {
                Ok(farm_token_id) => contract_state_error(storage_cache@) is None
                    && storage_cache@.farm_token_id == Some(farm_token_id),
                Err(e) => contract_state_error(storage_cache@) == Some(e),
            },
    ;

    /// Whether every position handed in is a well-formed one of the guild's
    /// position token.
    fn check_positions(tokens: &Vec<StakingFarmToken>, farm_token_id: TokenIdentifier) -> (r:
        bool)
        ensures
            r == all_positions_valid(positions_view(tokens@), farm_token_id),
    ;
}

impl BaseFarmValidationModule for FarmStaking {
    fn validate_contract_state(storage_cache: &StorageCache) -> (r: Result<
        TokenIdentifier,
        GuildError,
    >) {
        match storage_cache.contract_state {
            State::Active => {},
            _ => {
                return Err(GuildError::NotActive);
            },
        }
        match storage_cache.farm_token_id {
            Some(farm_token_id) => Ok(farm_token_id),
            None => Err(GuildError::NoFarmToken),
        }
    }

    fn check_positions(tokens: &Vec<StakingFarmToken>, farm_token_id: TokenIdentifier) -> (r:
        bool) {
        let mut i: usize = 0;
        while i < tokens.len()
            invariant
                i <= tokens.len(),
                forall|j: int|
                    0 <= j < i ==> (#[trigger] positions_view(
                        tokens@,
                    )[j]).payment.token_identifier == farm_token_id && positions_view(
                        tokens@,
                    )[j].wf(),
            decreases tokens.len() - i,
        {
            let token = &tokens[i];
            assert(positions_view(tokens@)[i as int] == token@);
            if token.payment.token_identifier != farm_token_id || !token.is_well_formed() {
                return false;
            }
            i += 1;
        }
        true
    }
}

/// What a list of positions holds, and what it is owed.
pub trait BaseClaimRewardsModule: View<V = FarmStakingView> {
    /// What the positions hold together.
    fn sum_amounts(tokens: &Vec<StakingFarmToken>) -> (r: Amount)
        ensures
            r@ == amounts_sum(positions_view(tokens@), tokens@.len() as int),
    ;

    /// What the positions hold of compounded rewards together.
    fn sum_compounded(tokens: &Vec<StakingFarmToken>, farm_token_id: TokenIdentifier) -> (r:
        Amount)
        requires
            all_positions_valid(positions_view(tokens@), farm_token_id),
        ensures
            r@ == compounded_sum(positions_view(tokens@), tokens@.len() as int),
    ;

    /// What the positions of `caller` are owed together.
    fn sum_rewards(
        &self,
        caller: Address,
        storage_cache: &StorageCache,
        tokens: &Vec<StakingFarmToken>,
    ) -> (r: Amount)
        requires
            storage_cache@.division_safety_constant > 0,
        ensures
            r@ == owed_rewards(
                positions_view(tokens@),
                storage_cache@.rps_of(self@, caller),
                storage_cache@.division_safety_constant,
                tokens@.len() as int,
            ),
    ;
}

impl BaseClaimRewardsModule for FarmStaking {
    fn sum_amounts(tokens: &Vec<StakingFarmToken>) -> (r: Amount) {
        let mut total = Amount::zero();
        let mut i: usize = 0;
        while i < tokens.len()
            invariant
                i <= tokens.len(),
                total@ == amounts_sum(positions_view(tokens@), i as int),
            decreases tokens.len() - i,
        {
            assert(positions_view(tokens@)[i as int] == tokens@[i as int]@);
            total = total.plus(&tokens[i].payment.amount);
            i += 1;
        }
        total
    }

    fn sum_compounded(tokens: &Vec<StakingFarmToken>, farm_token_id: TokenIdentifier) -> (r:
        Amount) {
        let mut total = Amount::zero();
        let mut i: usize = 0;
        while i < tokens.len()
            invariant
                i <= tokens.len(),
                all_positions_valid(positions_view(tokens@), farm_token_id),
                total@ == compounded_sum(positions_view(tokens@), i as int),
            decreases tokens.len() - i,
        {
            assert(positions_view(tokens@)[i as int] == tokens@[i as int]@);
            assert(positions_view(tokens@)[i as int].wf());
            let part = tokens[i].attributes.duplicate().into_part(&tokens[i].payment.amount);
            total = total.plus(&part.compounded_reward);
            i += 1;
        }
        total
    }

    fn sum_rewards(
        &self,
        caller: Address,
        storage_cache: &StorageCache,
        tokens: &Vec<StakingFarmToken>,
    ) -> (r: Amount) {
        let mut total_rewards = Amount::zero();
        let mut i: usize = 0;
        while i < tokens.len()
            invariant
                i <= tokens.len(),
                storage_cache@.division_safety_constant > 0,
                total_rewards@ == owed_rewards(
                    positions_view(tokens@),
                    storage_cache@.rps_of(self@, caller),
                    storage_cache@.division_safety_constant,
                    i as int,
                ),
            decreases tokens.len() - i,
        {
            assert(positions_view(tokens@)[i as int] == tokens@[i as int]@);
            let rewards = FarmStakingWrapper::calculate_rewards(
                self,
                caller,
                &tokens[i].payment.amount,
                &tokens[i].attributes,
                storage_cache,
            );
            total_rewards = total_rewards.plus(&rewards);
            i += 1;
        }
        total_rewards
    }
}

} // verus!
