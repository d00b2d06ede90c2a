//! Arbitrary-precision token amounts.
//!
//! An [`Amount`] holds an unsigned big integer of the MultiversX framework.
//! Verus cannot look inside such a value, so every operation on it is a thin
//! call into the framework whose contract is stated here over the natural
//! number that the value stands for. Everything else in this crate is proved
//! on top of those contracts.

use vstd::prelude::*;
use multiversx_sc::types::BigUint;
use multiversx_sc_scenario::api::StaticApi;

verus! {

/// The largest number that the framework converts back into a machine integer:
/// its conversion goes through a signed 64-bit value.
pub const MAX_NATIVE: u64 = 0x7fff_ffff_ffff_ffff;

/// An unsigned integer without an upper bound.
///
/// Trusted: the field is `multiversx_sc::types::BigUint` over the static API of
/// `multiversx_sc_scenario`, whose backend type has no public path and so cannot
/// be declared to the verifier. The struct is therefore opaque to Verus.
#[verifier::external_body]
pub struct Amount {
    raw: BigUint<StaticApi>,
}

/// The natural number that an [`Amount`] stands for.
pub uninterp spec fn amount_value(a: Amount) -> nat;

impl View for Amount {
    type V = nat;

    open spec fn view(&self) -> nat {
        amount_value(*self)
    }
}

/// Trusted: `BigUint::zero` sets the new value to the integer 0.
#[verifier::external_body]
fn big_uint_zero() -> (r: Amount)
    ensures
        amount_value(r) == 0,
{
    Amount { raw: BigUint::zero() }
}

/// Trusted: `BigUint::from(u128)` reads the sixteen big-endian bytes of the
/// argument as an unsigned number, which is the argument itself.
#[verifier::external_body]
fn big_uint_from_u128(v: u128) -> (r: Amount)
    ensures
        amount_value(r) == v,
{
    Amount { raw: BigUint::from(v) }
}

/// Trusted: `BigUint::to_u64` gives the value where it fits a signed 64-bit
/// integer and `None` for every larger one.
#[verifier::external_body]
fn big_uint_to_u64(a: &Amount) -> (r: Option<u64>)
    ensures
        amount_value(*a) <= MAX_NATIVE ==> r == Some(amount_value(*a) as u64),
        amount_value(*a) > MAX_NATIVE ==> r.is_none(),
{
    a.raw.to_u64()
}

/// Trusted: `&BigUint + &BigUint` is the sum, in a fresh value.
#[verifier::external_body]
fn big_uint_add(a: &Amount, b: &Amount) -> (r: Amount)
    ensures
        amount_value(r) == amount_value(*a) + amount_value(*b),
{
    Amount { raw: &a.raw + &b.raw }
}

/// Trusted: `&BigUint - &BigUint` is the difference. The framework signals an
/// error where the result would be negative, so that case is excluded.
#[verifier::external_body]
fn big_uint_sub(a: &Amount, b: &Amount) -> (r: Amount)
    requires
        amount_value(*a) >= amount_value(*b),
    ensures
        amount_value(r) == amount_value(*a) - amount_value(*b),
{
    Amount { raw: &a.raw - &b.raw }
}

/// Trusted: `&BigUint * &BigUint` is the product.
#[verifier::external_body]
fn big_uint_mul(a: &Amount, b: &Amount) -> (r: Amount)
    ensures
        amount_value(r) == amount_value(*a) * amount_value(*b),
{
    Amount { raw: &a.raw * &b.raw }
}

/// Trusted: `&BigUint / &BigUint` is the quotient rounded down. The framework
/// fails on a zero divisor, so that case is excluded.
#[verifier::external_body]
fn big_uint_div(a: &Amount, b: &Amount) -> (r: Amount)
    requires
        amount_value(*b) > 0,
    ensures
        amount_value(r) == amount_value(*a) / amount_value(*b),
{
    Amount { raw: &a.raw / &b.raw }
}

/// Trusted: `BigUint`'s `<` compares the two numbers.
#[verifier::external_body]
fn big_uint_lt(a: &Amount, b: &Amount) -> (r: bool)
    ensures
        r == (amount_value(*a) < amount_value(*b)),
{
    a.raw < b.raw
}

/// Trusted: `BigUint`'s `==` holds exactly of equal numbers.
#[verifier::external_body]
fn big_uint_eq(a: &Amount, b: &Amount) -> (r: bool)
    ensures
        r == (amount_value(*a) == amount_value(*b)),
{
    a.raw == b.raw
}

/// Trusted: `BigUint::clone` gives a fresh value that holds the same number.
#[verifier::external_body]
fn big_uint_clone(a: &Amount) -> (r: Amount)
    ensures
        amount_value(r) == amount_value(*a),
{
    Amount { raw: a.raw.clone() }
}

impl Amount {
    pub fn zero() -> (r: Amount)
        ensures
            r@ == 0,
    {
        big_uint_zero()
    }

    pub fn from_u64(v: u64) -> (r: Amount)
        ensures
            r@ == v,
    {
        big_uint_from_u128(v as u128)
    }

    pub fn from_u128(v: u128) -> (r: Amount)
        ensures
            r@ == v,
    {
        big_uint_from_u128(v)
    }

    /// The value as a machine integer, where it is at most [`MAX_NATIVE`].
    pub fn to_u64(&self) -> (r: Option<u64>)
        ensures
            self@ <= MAX_NATIVE ==> r == Some(self@ as u64),
            self@ > MAX_NATIVE ==> r.is_none(),
    {
        big_uint_to_u64(self)
    }

    pub fn plus(&self, other: &Amount) -> (r: Amount)
        ensures
            r@ == self@ + other@,
    {
        big_uint_add(self, other)
    }

    pub fn minus(&self, other: &Amount) -> (r: Amount)
        requires
            self@ >= other@,
        ensures
            r@ == self@ - other@,
    {
        big_uint_sub(self, other)
    }

    pub fn times(&self, other: &Amount) -> (r: Amount)
        ensures
            r@ == self@ * other@,
    {
        big_uint_mul(self, other)
    }

    pub fn divided_by(&self, other: &Amount) -> (r: Amount)
        requires
            other@ > 0,
        ensures
            r@ == self@ / other@,
    {
        big_uint_div(self, other)
    }

    pub fn less_than(&self, other: &Amount) -> (r: bool)
        ensures
            r == (self@ < other@),
    {
        big_uint_lt(self, other)
    }

    pub fn same_as(&self, other: &Amount) -> (r: bool)
        ensures
            r == (self@ == other@),
    {
        big_uint_eq(self, other)
    }

    pub fn duplicate(&self) -> (r: Amount)
        ensures
            r@ == self@,
    {
        big_uint_clone(self)
    }

    pub fn is_zero(&self) -> (r: bool)
        ensures
            r == (self@ == 0),
    {
        let zero = Amount::zero();
        self.same_as(&zero)
    }

    pub fn at_most(&self, other: &Amount) -> (r: bool)
        ensures
            r == (self@ <= other@),
    {
        !other.less_than(self)
    }

    /// The difference, or `None` where `other` is the larger.
    pub fn checked_minus(&self, other: &Amount) -> (r: Option<Amount>)
        ensures
            self@ >= other@ ==> r.is_some() && r.unwrap()@ == self@ - other@,
            self@ < other@ ==> r.is_none(),
    {
        if self.less_than(other) {
            None
        } else {
            Some(self.minus(other))
        }
    }

    /// The smaller of the two.
    pub fn smaller(&self, other: &Amount) -> (r: Amount)
        ensures
            r@ == if self@ <= other@ { self@ } else { other@ },
    {
        if other.less_than(self) {
            other.duplicate()
        } else {
            self.duplicate()
        }
    }
}

/// The number that `bytes` spell, most significant byte first.
pub open spec fn spec_from_be_bytes(bytes: Seq<u8>) -> nat
    decreases bytes.len(),
{
    if bytes.len() == 0 {
        0
    } else {
        spec_from_be_bytes(bytes.drop_last()) * 256 + bytes.last() as nat
    }
}

/// The bytes that spell `value`, most significant byte first and without
/// leading zeros; none for zero.
pub open spec fn spec_to_be_bytes(value: nat) -> Seq<u8>
    decreases value,
{
    if value == 0 {
        Seq::empty()
    } else {
        spec_to_be_bytes(value / 256).push((value % 256) as u8)
    }
}

/// The bytes of a number spell that number.
pub proof fn lemma_be_bytes_round_trip(value: nat)
    ensures
        spec_from_be_bytes(spec_to_be_bytes(value)) == value,
    decreases value,
{
    if value != 0 {
        lemma_be_bytes_round_trip(value / 256);
        let bytes = spec_to_be_bytes(value);
        assert(bytes.drop_last() =~= spec_to_be_bytes(value / 256));
        assert(bytes.last() == (value % 256) as u8);
    }
}

impl Amount {
    /// The number that `bytes` spell, most significant byte first.
    pub fn from_be_bytes(bytes: &[u8]) -> (r: Amount)
        ensures
            r@ == spec_from_be_bytes(bytes@),
    {
        let base = Amount::from_u64(256);
        let mut value = Amount::zero();
        let mut i: usize = 0;
        while i < bytes.len()
            invariant
                i <= bytes.len(),
                base@ == 256,
                value@ == spec_from_be_bytes(bytes@.subrange(0, i as int)),
            decreases bytes.len() - i,
        {
            proof {
                let next = bytes@.subrange(0, i + 1);
                assert(next.drop_last() =~= bytes@.subrange(0, i as int));
                assert(next.last() == bytes@[i as int]);
            }
            value = value.times(&base).plus(&Amount::from_u64(bytes[i] as u64));
            i += 1;
        }
        proof {
            assert(bytes@.subrange(0, bytes@.len() as int) =~= bytes@);
        }
        value
    }

    /// The bytes that spell the number, most significant byte first and
    /// without leading zeros.
    pub fn to_be_bytes(&self) -> (r: Vec<u8>)
        ensures
            r@ == spec_to_be_bytes(self@),
            spec_from_be_bytes(r@) == self@,
    {
        let base = Amount::from_u64(256);
        let mut remaining = self.duplicate();
        let mut bytes: Vec<u8> = Vec::new();
        proof {
            assert(spec_to_be_bytes(self@) + bytes@ =~= spec_to_be_bytes(self@));
        }
        while !remaining.is_zero()
            invariant
                base@ == 256,
                spec_to_be_bytes(self@) == spec_to_be_bytes(remaining@) + bytes@,
            decreases remaining@,
        {
            let quotient = remaining.divided_by(&base);
            let byte = remaining.minus(&quotient.times(&base));
            let ghost before = bytes@;
            proof {
                assert(spec_to_be_bytes(remaining@) + before =~= spec_to_be_bytes(remaining@ / 256)
                    + (seq![(remaining@ % 256) as u8] + before));
            }
            let low = byte.to_u64().unwrap();
            bytes.insert(0, low as u8);
            proof {
                assert(bytes@ =~= seq![(remaining@ % 256) as u8] + before);
            }
            remaining = quotient;
        }
        proof {
            assert(spec_to_be_bytes(0) + bytes@ =~= bytes@);
            lemma_be_bytes_round_trip(self@);
        }
        bytes
    }
}

} // verus!
