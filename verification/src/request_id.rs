//! The display name of a guild's tokens: a base name with the guild's number
//! behind it, in decimal.

use vstd::prelude::*;
use crate::farm_staking::{FarmStaking, FarmStakingView};

verus! {

/// The number of a guild on the factory's register.
pub type AddressId = u64;

pub const ZERO_ASCII: u8 = 48;

pub const INTEGER_DIV_NUMBER: u64 = 10;

/// The decimal digits of `id`, most significant first; none for zero.
pub open spec fn spec_digits(id: nat) -> Seq<u8>
    decreases id,
{
    if id == 0 {
        Seq::empty()
    } else {
        spec_digits(id / 10).push((ZERO_ASCII + id % 10) as u8)
    }
}

/// `id` as a reader writes it: its decimal digits, and `0` for zero.
pub open spec fn spec_human_readable(id: nat) -> Seq<u8> {
    if id == 0 {
        seq![ZERO_ASCII]
    } else {
        spec_digits(id)
    }
}

/// The digits of a number are those of its tenth, and its last digit.
proof fn lemma_digits_step(id: nat, rest: Seq<u8>)
    requires
        id > 0,
    ensures
        spec_digits(id) + rest == spec_digits(id / 10) + (seq![(ZERO_ASCII + id % 10) as u8]
            + rest),
{
    assert(spec_digits(id) + rest =~= spec_digits(id / 10) + (seq![(ZERO_ASCII + id % 10) as u8]
        + rest));
}

/// How a guild names its tokens.
pub trait RequestIdModule: View<V = FarmStakingView> {
    /// The number of the guild on the factory's register.
    fn get_guild_id(&self) -> (r: AddressId)
        ensures
            r == self@.own_address,
    ;

    /// The name of a guild's token: an optional prefix, the base name, and the
    /// guild's number.
    fn build_token_display_name(
        &self,
        base_display_name: &Vec<u8>,
        guild_id: AddressId,
        opt_prefix: Option<Vec<u8>>,
    ) -> (r: Vec<u8>)
        ensures
            r@ == (match opt_prefix {
                Some(prefix) => prefix@,
                None => Seq::empty(),
            }) + base_display_name@ + spec_human_readable(guild_id as nat),
    ;

    /// `guild_id` in decimal digits.
    fn id_to_human_readable(&self, guild_id: AddressId) -> (r: Vec<u8>)
        ensures
            r@ == spec_human_readable(guild_id as nat),
    ;
}

impl RequestIdModule for FarmStaking {
    fn get_guild_id(&self) -> (r: AddressId) {
        self.own_address
    }

    fn build_token_display_name(
        &self,
        base_display_name: &Vec<u8>,
        guild_id: AddressId,
        opt_prefix: Option<Vec<u8>>,
    ) -> (r: Vec<u8>) {
        let mut display_name: Vec<u8> = match opt_prefix {
            Some(prefix) => prefix,
            None => Vec::new(),
        };
        let ghost start = display_name@;
        let mut i: usize = 0;
        while i < base_display_name.len()
            invariant
                i <= base_display_name.len(),
                display_name@ == start + base_display_name@.subrange(0, i as int),
            decreases base_display_name.len() - i,
        {
            display_name.push(base_display_name[i]);
            proof {
                assert(display_name@ =~= start + base_display_name@.subrange(0, i + 1));
            }
            i += 1;
        }
        proof {
            assert(base_display_name@.subrange(0, base_display_name@.len() as int)
                =~= base_display_name@);
        }
        let human_readable_id = self.id_to_human_readable(guild_id);
        let ghost named = display_name@;
        let mut k: usize = 0;
        while k < human_readable_id.len()
            invariant
                k <= human_readable_id.len(),
                display_name@ == named + human_readable_id@.subrange(0, k as int),
            decreases human_readable_id.len() - k,
        {
            display_name.push(human_readable_id[k]);
            proof {
                assert(display_name@ =~= named + human_readable_id@.subrange(0, k + 1));
            }
            k += 1;
        }
        proof {
            assert(human_readable_id@.subrange(0, human_readable_id@.len() as int)
                =~= human_readable_id@);
        }
        display_name
    }

    fn id_to_human_readable(&self, guild_id: AddressId) -> (r: Vec<u8>) {
        if guild_id == 0 {
            let mut zero: Vec<u8> = Vec::new();
            zero.push(ZERO_ASCII);
            proof {
                assert(zero@ =~= seq![ZERO_ASCII]);
            }
            return zero;
        }
        let mut remaining: u64 = guild_id;
        let mut output_buffer: Vec<u8> = Vec::new();
        proof {
            assert(spec_digits(guild_id as nat) + output_buffer@ =~= spec_digits(guild_id as nat));
        }
        while remaining != 0
            invariant
                spec_digits(guild_id as nat) == spec_digits(remaining as nat) + output_buffer@,
            decreases remaining,
        {
            let last_digit: u64 = remaining % INTEGER_DIV_NUMBER;
            let last_digit_u8: u8 = last_digit as u8;
            let ghost before = output_buffer@;
            proof {
                lemma_digits_step(remaining as nat, before);
            }
            remaining = remaining / INTEGER_DIV_NUMBER;
            output_buffer.insert(0, ZERO_ASCII + last_digit_u8);
            proof {
                assert(output_buffer@ =~= seq![(ZERO_ASCII + last_digit_u8) as u8] + before);
            }
        }
        proof {
            assert(spec_digits(0) + output_buffer@ =~= output_buffer@);
        }
        output_buffer
    }
}

} // verus!
