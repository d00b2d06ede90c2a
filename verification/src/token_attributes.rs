//! Staking positions and unbonding positions, as the values that travel with
//! a token.

use vstd::prelude::*;
use crate::amount::Amount;
use crate::math::{spec_rule_of_three, spec_weighted_average_round_up, weighted_average_round_up};

verus! {

/// What names a token.
#[derive(Clone, Copy, PartialEq, Eq, Structural, Debug)]
pub struct TokenIdentifier {
    pub id: u64,
}

/// An amount of one token, of one nonce of it.
pub struct EsdtTokenPayment {
    pub token_identifier: TokenIdentifier,
    pub token_nonce: u64,
    pub amount: Amount,
}

pub struct EsdtTokenPaymentView {
    pub token_identifier: TokenIdentifier,
    pub token_nonce: u64,
    pub amount: nat,
}

impl View for EsdtTokenPayment {
    type V = EsdtTokenPaymentView;

    open spec fn view(&self) -> EsdtTokenPaymentView {
        EsdtTokenPaymentView {
            token_identifier: self.token_identifier,
            token_nonce: self.token_nonce,
            amount: self.amount@,
        }
    }
}

impl EsdtTokenPayment {
    pub fn new(token_identifier: TokenIdentifier, token_nonce: u64, amount: Amount) -> (r: Self)
        ensures
            r.token_identifier == token_identifier,
            r.token_nonce == token_nonce,
            r.amount == amount,
    {
        EsdtTokenPayment { token_identifier, token_nonce, amount }
    }

    pub fn duplicate(&self) -> (r: Self)
        ensures
            r@ == self@,
    {
        EsdtTokenPayment {
            token_identifier: self.token_identifier,
            token_nonce: self.token_nonce,
            amount: self.amount.duplicate(),
        }
    }
}

/// A staking position.
///
/// `current_farm_amount` is everything the position stands for, and
/// `compounded_reward` the part of it that came from compounding.
pub struct StakingFarmTokenAttributes {
    pub reward_per_share: Amount,
    pub compounded_reward: Amount,
    pub current_farm_amount: Amount,
}

pub struct StakingFarmTokenAttributesView {
    pub reward_per_share: nat,
    pub compounded_reward: nat,
    pub current_farm_amount: nat,
}

impl StakingFarmTokenAttributesView {
    /// The compounded part is a part of the whole.
    pub open spec fn wf(self) -> bool {
        self.compounded_reward <= self.current_farm_amount
    }

    /// The share of the position that goes with `payment_amount` of its token.
    pub open spec fn part(self, payment_amount: nat) -> StakingFarmTokenAttributesView {
        if payment_amount == self.current_farm_amount {
            self
        } else {
            StakingFarmTokenAttributesView {
                reward_per_share: self.reward_per_share,
                compounded_reward: spec_rule_of_three(
                    self.current_farm_amount,
                    payment_amount,
                    self.compounded_reward,
                ),
                current_farm_amount: payment_amount,
            }
        }
    }

    /// Two positions as one: the amounts add up, and the checkpoint is the
    /// average by amount, rounded up.
    pub open spec fn merged(self, other: StakingFarmTokenAttributesView)
        -> StakingFarmTokenAttributesView {
        StakingFarmTokenAttributesView {
            reward_per_share: spec_weighted_average_round_up(
                self.reward_per_share,
                self.current_farm_amount,
                other.reward_per_share,
                other.current_farm_amount,
            ),
            compounded_reward: self.compounded_reward + other.compounded_reward,
            current_farm_amount: self.current_farm_amount + other.current_farm_amount,
        }
    }
}

impl View for StakingFarmTokenAttributes {
    type V = StakingFarmTokenAttributesView;

    open spec fn view(&self) -> StakingFarmTokenAttributesView {
        StakingFarmTokenAttributesView {
            reward_per_share: self.reward_per_share@,
            compounded_reward: self.compounded_reward@,
            current_farm_amount: self.current_farm_amount@,
        }
    }
}

impl StakingFarmTokenAttributes {
    pub fn duplicate(&self) -> (r: Self)
        ensures
            r@ == self@,
    {
        StakingFarmTokenAttributes {
            reward_per_share: self.reward_per_share.duplicate(),
            compounded_reward: self.compounded_reward.duplicate(),
            current_farm_amount: self.current_farm_amount.duplicate(),
        }
    }
}

/// What a position token carries besides its amount.
pub trait LocalFarmToken {
    /// The checkpoint of the position.
    spec fn reward_per_share_value(&self) -> nat;

    /// The part of the position that came from compounding.
    spec fn compounded_rewards_value(&self) -> nat;

    /// The part of the position that was staked.
    spec fn initial_farming_tokens_value(&self) -> int;

    /// Whether the compounded part is at most the whole.
    spec fn is_consistent(&self) -> bool;

    fn get_reward_per_share(&self) -> (r: Amount)
        ensures
            r@ == self.reward_per_share_value(),
    ;

    fn get_compounded_rewards(&self) -> (r: Amount)
        ensures
            r@ == self.compounded_rewards_value(),
    ;

    /// The part of the position that was staked rather than compounded.
    fn get_initial_farming_tokens(&self) -> (r: Amount)
        requires
            self.is_consistent(),
        ensures
            r@ == self.initial_farming_tokens_value(),
    ;

    /// Moves the checkpoint and leaves the amounts alone.
    fn set_reward_per_share(&mut self, new_rps: Amount)
        ensures
            final(self).reward_per_share_value() == new_rps@,
            final(self).compounded_rewards_value() == old(self).compounded_rewards_value(),
            final(self).initial_farming_tokens_value() == old(self).initial_farming_tokens_value(),
    ;
}

impl LocalFarmToken for StakingFarmTokenAttributes {
    open spec fn reward_per_share_value(&self) -> nat {
        self@.reward_per_share
    }

    open spec fn compounded_rewards_value(&self) -> nat {
        self@.compounded_reward
    }

    open spec fn initial_farming_tokens_value(&self) -> int {
        self@.current_farm_amount - self@.compounded_reward
    }

    open spec fn is_consistent(&self) -> bool {
        self@.wf()
    }

    fn get_reward_per_share(&self) -> (r: Amount) {
        self.reward_per_share.duplicate()
    }

    fn get_compounded_rewards(&self) -> (r: Amount) {
        self.compounded_reward.duplicate()
    }

    fn get_initial_farming_tokens(&self) -> (r: Amount) {
        self.current_farm_amount.minus(&self.compounded_reward)
    }

    fn set_reward_per_share(&mut self, new_rps: Amount)
        ensures
            final(self)@ == (StakingFarmTokenAttributesView {
                reward_per_share: new_rps@,
                ..old(self)@
            }),
    {
        self.reward_per_share = new_rps;
    }
}

/// A token whose attributes speak of a supply, so that a part of the token
/// stands for a part of what the attributes hold.
pub trait FixedSupplyToken: Sized {
    /// The supply that the attributes were written for.
    spec fn total_supply(&self) -> nat;

    fn get_total_supply(&self) -> (r: Amount)
        ensures
            r@ == self.total_supply(),
    ;

    /// The attributes that go with `payment_amount` of the token: they speak
    /// of that much supply. A part of an empty supply cannot be taken.
    fn into_part(self, payment_amount: &Amount) -> (r: Self)
        requires
            self.total_supply() > 0 || payment_amount@ == 0,
        ensures
            r.total_supply() == payment_amount@,
    ;

    /// `full_value * current_supply / total_supply`.
    fn rule_of_three(&self, current_supply: &Amount, full_value: &Amount) -> (r: Amount)
        requires
            self.total_supply() > 0 || current_supply@ == 0,
        ensures
            r@ == spec_rule_of_three(self.total_supply(), current_supply@, full_value@),
    {
        let total_supply = self.get_total_supply();
        if current_supply.same_as(&total_supply) {
            return full_value.duplicate();
        }
        full_value.times(current_supply).divided_by(&total_supply)
    }
}

/// Attributes of which two can be made one.
pub trait Mergeable: Sized {
    /// Whether `self` and `other` can be merged: two positions that are both
    /// empty have no average checkpoint.
    spec fn can_merge(&self, other: &Self) -> bool;

    /// What the attributes stand for.
    spec fn merged_amount(&self) -> nat;

    /// Makes `self` stand for what `self` and `other` stood for together.
    fn merge_with(&mut self, other: Self)
        requires
            old(self).can_merge(&other),
        ensures
            final(self).merged_amount() == old(self).merged_amount() + other.merged_amount(),
    ;
}

impl FixedSupplyToken for StakingFarmTokenAttributes {
    open spec fn total_supply(&self) -> nat {
        self@.current_farm_amount
    }

    fn get_total_supply(&self) -> (r: Amount) {
        self.current_farm_amount.duplicate()
    }

    fn into_part(self, payment_amount: &Amount) -> (r: Self)
        ensures
            r@ == self@.part(payment_amount@),
    {
        if payment_amount.same_as(&self.get_total_supply()) {
            return self;
        }
        let new_compounded_reward = self.rule_of_three(payment_amount, &self.compounded_reward);
        let new_current_farm_amount = payment_amount.duplicate();
        StakingFarmTokenAttributes {
            reward_per_share: self.reward_per_share,
            compounded_reward: new_compounded_reward,
            current_farm_amount: new_current_farm_amount,
        }
    }
}

impl Mergeable for StakingFarmTokenAttributes {
    open spec fn can_merge(&self, other: &Self) -> bool {
        self@.current_farm_amount + other@.current_farm_amount > 0
    }

    open spec fn merged_amount(&self) -> nat {
        self@.current_farm_amount
    }

    fn merge_with(&mut self, other: Self)
        ensures
            final(self)@ == old(self)@.merged(other@),
    {
        let first_supply = self.get_total_supply();
        let second_supply = other.get_total_supply();
        self.reward_per_share = weighted_average_round_up(
            &self.reward_per_share,
            &first_supply,
            &other.reward_per_share,
            &second_supply,
        );
        self.compounded_reward = self.compounded_reward.plus(&other.compounded_reward);
        self.current_farm_amount = self.current_farm_amount.plus(&other.current_farm_amount);
    }
}

/// A position token as it is handed in: how much of it, and what it carries.
pub struct StakingFarmToken {
    pub payment: EsdtTokenPayment,
    pub attributes: StakingFarmTokenAttributes,
}

pub struct StakingFarmTokenView {
    pub payment: EsdtTokenPaymentView,
    pub attributes: StakingFarmTokenAttributesView,
}

impl View for StakingFarmToken {
    type V = StakingFarmTokenView;

    open spec fn view(&self) -> StakingFarmTokenView {
        StakingFarmTokenView { payment: self.payment@, attributes: self.attributes@ }
    }
}

impl StakingFarmTokenView {
    /// No more of the token is handed in than the position holds, an empty
    /// position is not handed in, and the position itself is well formed.
    pub open spec fn wf(self) -> bool {
        &&& self.attributes.wf()
        &&& 0 < self.payment.amount <= self.attributes.current_farm_amount
    }

    /// The position that the payment stands for.
    pub open spec fn part(self) -> StakingFarmTokenAttributesView {
        self.attributes.part(self.payment.amount)
    }
}

impl StakingFarmToken {
    pub fn duplicate(&self) -> (r: Self)
        ensures
            r@ == self@,
    {
        StakingFarmToken {
            payment: self.payment.duplicate(),
            attributes: self.attributes.duplicate(),
        }
    }

    /// Whether the token is one that the ledger could hand in.
    pub fn is_well_formed(&self) -> (r: bool)
        ensures
            r == self@.wf(),
    {
        self.attributes.compounded_reward.at_most(&self.attributes.current_farm_amount)
            && !self.payment.amount.is_zero()
            && self.payment.amount.at_most(&self.attributes.current_farm_amount)
    }
}

/// What an unbonding token carries: when it unlocks, how much staking token it
/// holds, and the position it came from where the unbonding can be cancelled.
pub struct UnbondSftAttributes {
    pub unlock_epoch: u64,
    pub supply: Amount,
    pub opt_original_attributes: Option<StakingFarmTokenAttributes>,
}

pub struct UnbondSftAttributesView {
    pub unlock_epoch: u64,
    pub supply: nat,
    pub opt_original_attributes: Option<StakingFarmTokenAttributesView>,
}

impl UnbondSftAttributesView {
    /// The share of the unbonding position that goes with `payment_amount`:
    /// that much is locked, and the position it came from is carried by the
    /// same share. A position that held nothing has no shares, and is carried
    /// as it is.
    pub open spec fn part(self, payment_amount: nat) -> UnbondSftAttributesView {
        if payment_amount == self.supply {
            self
        } else {
            UnbondSftAttributesView {
                unlock_epoch: self.unlock_epoch,
                supply: payment_amount,
                opt_original_attributes: match self.opt_original_attributes {
                    Some(original) => if original.current_farm_amount == 0 && payment_amount != 0 {
                        Some(original)
                    } else {
                        Some(original.part(payment_amount))
                    },
                    None => None,
                },
            }
        }
    }

    /// The position it came from, if any, held as much as is locked.
    pub open spec fn wf(self) -> bool {
        match self.opt_original_attributes {
            Some(original) => original.wf() && original.current_farm_amount == self.supply,
            None => true,
        }
    }
}

impl View for UnbondSftAttributes {
    type V = UnbondSftAttributesView;

    open spec fn view(&self) -> UnbondSftAttributesView {
        UnbondSftAttributesView {
            unlock_epoch: self.unlock_epoch,
            supply: self.supply@,
            opt_original_attributes: match self.opt_original_attributes {
                Some(original) => Some(original@),
                None => None,
            },
        }
    }
}

impl UnbondSftAttributes {
    pub fn duplicate(&self) -> (r: Self)
        ensures
            r@ == self@,
    {
        let opt_original_attributes = match &self.opt_original_attributes {
            Some(original) => Some(original.duplicate()),
            None => None,
        };
        UnbondSftAttributes {
            unlock_epoch: self.unlock_epoch,
            supply: self.supply.duplicate(),
            opt_original_attributes,
        }
    }

    /// Whether the position it came from, if any, held as much as is locked.
    pub fn is_well_formed(&self) -> (r: bool)
        ensures
            r == self@.wf(),
    {
        match &self.opt_original_attributes {
            Some(original) => original.compounded_reward.at_most(&original.current_farm_amount)
                && original.current_farm_amount.same_as(&self.supply),
            None => true,
        }
    }
}

impl FixedSupplyToken for UnbondSftAttributes {
    open spec fn total_supply(&self) -> nat {
        self@.supply
    }

    fn get_total_supply(&self) -> (r: Amount) {
        self.supply.duplicate()
    }

    fn into_part(self, payment_amount: &Amount) -> (r: Self)
        ensures
            r@ == self@.part(payment_amount@),
    {
        if payment_amount.same_as(&self.get_total_supply()) {
            return self;
        }
        let new_supply = payment_amount.duplicate();
        let new_attributes = match self.opt_original_attributes {
            Some(original) => {
                if original.current_farm_amount.is_zero() && !payment_amount.is_zero() {
                    Some(original)
                } else {
                    Some(original.into_part(payment_amount))
                }
            },
            None => None,
        };
        UnbondSftAttributes {
            unlock_epoch: self.unlock_epoch,
            supply: new_supply,
            opt_original_attributes: new_attributes,
        }
    }
}

/// The part of a well-formed position is well formed.
pub proof fn lemma_part_is_well_formed(position: StakingFarmTokenAttributesView,
    payment_amount: nat)
    requires
        position.wf(),
        position.current_farm_amount > 0 || payment_amount == 0,
    ensures
        position.part(payment_amount).wf(),
        position.part(payment_amount).current_farm_amount == payment_amount,
        position.part(payment_amount).reward_per_share == position.reward_per_share,
{
    if payment_amount != position.current_farm_amount {
        let total = position.current_farm_amount;
        let compounded = position.compounded_reward;
        assert(compounded * payment_amount <= total * payment_amount) by (nonlinear_arith)
            requires
                compounded <= total,
        ;
        assert(compounded * payment_amount / total <= payment_amount) by (nonlinear_arith)
            requires
                compounded * payment_amount <= total * payment_amount,
                total > 0,
        ;
    }
}

/// Two well-formed positions merge into a well-formed one.
pub proof fn lemma_merged_is_well_formed(
    first: StakingFarmTokenAttributesView,
    second: StakingFarmTokenAttributesView,
)
    requires
        first.wf(),
        second.wf(),
    ensures
        first.merged(second).wf(),
{
}

} // verus!
