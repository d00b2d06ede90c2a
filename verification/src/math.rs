//! The integer formulas shared by positions and accrual.

use vstd::prelude::*;
use crate::amount::Amount;

verus! {

/// The average of two values by their weights, rounded up. The weights must
/// not both be zero.
pub open spec fn spec_weighted_average_round_up(
    first_value: nat,
    first_weight: nat,
    second_value: nat,
    second_weight: nat,
) -> nat {
    let weight_sum = first_weight + second_weight;
    ((first_value * first_weight + second_value * second_weight + weight_sum - 1)
        / weight_sum as int) as nat
}

/// `full_value * current_supply / total_supply`, and `full_value` itself where
/// the part is the whole.
pub open spec fn spec_rule_of_three(total_supply: nat, current_supply: nat,
    full_value: nat) -> nat {
    if current_supply == total_supply {
        full_value
    } else {
        full_value * current_supply / total_supply
    }
}

pub fn weighted_average_round_up(
    first_value: &Amount,
    first_weight: &Amount,
    second_value: &Amount,
    second_weight: &Amount,
) -> (r: Amount)
    requires
        first_weight@ + second_weight@ > 0,
    ensures
        r@ == spec_weighted_average_round_up(
            first_value@,
            first_weight@,
            second_value@,
            second_weight@,
        ),
{
    let weight_sum = first_weight.plus(second_weight);
    let weighted_sum = first_value.times(first_weight).plus(&second_value.times(second_weight));
    let one = Amount::from_u64(1);
    let rounded = weighted_sum.plus(&weight_sum).minus(&one);
    rounded.divided_by(&weight_sum)
}

} // verus!
