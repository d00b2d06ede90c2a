//! A staked total in its two parts: what was staked, and what was compounded.

use vstd::prelude::*;
use crate::amount::Amount;

verus! {

pub struct TokensPerTier {
    pub base: Amount,
    pub compounded: Amount,
}

pub struct TokensPerTierView {
    pub base: nat,
    pub compounded: nat,
}

impl TokensPerTierView {
    pub open spec fn total(self) -> nat {
        self.base + self.compounded
    }

    pub open spec fn zero() -> TokensPerTierView {
        TokensPerTierView { base: 0, compounded: 0 }
    }

    pub open spec fn plus(self, other: TokensPerTierView) -> TokensPerTierView {
        TokensPerTierView {
            base: self.base + other.base,
            compounded: self.compounded + other.compounded,
        }
    }

    /// Whether `self` holds as much as `other`, the two parts taken together.
    pub open spec fn holds(self, other: TokensPerTierView) -> bool {
        other.total() <= self.total()
    }

    /// `self` after `other` was taken out of it.
    ///
    /// The parts of a position are rounded when only a share of it is handed
    /// in, so a total may be asked for one more of one part than it has, and
    /// one less of the other. Each part gives what it can, and what it cannot
    /// give comes out of the other part. The two together shrink by exactly
    /// what is taken.
    pub open spec fn without(self, other: TokensPerTierView) -> TokensPerTierView {
        if other.base > self.base {
            TokensPerTierView {
                base: 0,
                compounded: (self.compounded - other.compounded - (other.base - self.base)) as nat,
            }
        } else if other.compounded > self.compounded {
            TokensPerTierView {
                base: (self.base - other.base - (other.compounded - self.compounded)) as nat,
                compounded: 0,
            }
        } else {
            TokensPerTierView {
                base: (self.base - other.base) as nat,
                compounded: (self.compounded - other.compounded) as nat,
            }
        }
    }
}

impl View for TokensPerTier {
    type V = TokensPerTierView;

    open spec fn view(&self) -> TokensPerTierView {
        TokensPerTierView { base: self.base@, compounded: self.compounded@ }
    }
}

impl Default for TokensPerTier {
    fn default() -> (r: Self)
        ensures
            r@ == TokensPerTierView::zero(),
    {
        TokensPerTier { base: Amount::zero(), compounded: Amount::zero() }
    }
}

impl TokensPerTier {
    pub fn new(base_amount: Amount, compounded_amount: Amount) -> (r: Self)
        ensures
            r@ == (TokensPerTierView { base: base_amount@, compounded: compounded_amount@ }),
    {
        TokensPerTier { base: base_amount, compounded: compounded_amount }
    }

    pub fn new_base(base_amount: Amount) -> (r: Self)
        ensures
            r@ == (TokensPerTierView { base: base_amount@, compounded: 0 }),
    {
        TokensPerTier { base: base_amount, compounded: Amount::zero() }
    }

    pub fn new_compounded(compounded_amount: Amount) -> (r: Self)
        ensures
            r@ == (TokensPerTierView { base: 0, compounded: compounded_amount@ }),
    {
        TokensPerTier { base: Amount::zero(), compounded: compounded_amount }
    }

    pub fn is_default(&self) -> (r: bool)
        ensures
            r == (self@ == TokensPerTierView::zero()),
    {
        self.base.is_zero() && self.compounded.is_zero()
    }

    pub fn total(&self) -> (r: Amount)
        ensures
            r@ == self@.total(),
    {
        self.base.plus(&self.compounded)
    }

    pub fn duplicate(&self) -> (r: Self)
        ensures
            r@ == self@,
    {
        TokensPerTier { base: self.base.duplicate(), compounded: self.compounded.duplicate() }
    }

    pub fn plus(&self, other: &TokensPerTier) -> (r: Self)
        ensures
            r@ == self@.plus(other@),
    {
        TokensPerTier {
            base: self.base.plus(&other.base),
            compounded: self.compounded.plus(&other.compounded),
        }
    }

    /// `self` after `other` was taken out of it, or `None` where `other` is
    /// the larger of the two.
    pub fn checked_without(&self, other: &TokensPerTier) -> (r: Option<Self>)
        ensures
            self@.holds(other@) ==> r.is_some() && r.unwrap()@ == self@.without(other@),
            !self@.holds(other@) ==> r.is_none(),
    {
        if self.total().less_than(&other.total()) {
            return None;
        }
        if self.base.less_than(&other.base) {
            let missing = other.base.minus(&self.base);
            let compounded = self.compounded.minus(&other.compounded).minus(&missing);
            Some(TokensPerTier { base: Amount::zero(), compounded })
        } else if self.compounded.less_than(&other.compounded) {
            let missing = other.compounded.minus(&self.compounded);
            let base = self.base.minus(&other.base).minus(&missing);
            Some(TokensPerTier { base, compounded: Amount::zero() })
        } else {
            Some(
                TokensPerTier {
                    base: self.base.minus(&other.base),
                    compounded: self.compounded.minus(&other.compounded),
                },
            )
        }
    }
}

} // verus!
