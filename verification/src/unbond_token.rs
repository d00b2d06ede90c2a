//! The unbonding token of a guild.

use vstd::prelude::*;
use crate::farm_staking::{FarmStaking, FarmStakingView};
use crate::token_attributes::TokenIdentifier;

verus! {

/// What a guild knows of its unbonding token.
pub trait UnbondTokenModule: View<V = FarmStakingView> {
    /// Notes the unbonding token of the guild, once it was issued.
    fn set_unbond_token_id(&mut self, unbond_token_id: TokenIdentifier)
        ensures
            final(self)@ == (FarmStakingView {
                unbond_token_id: Some(unbond_token_id),
                ..old(self)@
            }),
    ;

    /// Notes that the guild may transfer its unbonding token, where setting
    /// the role went through.
    fn t_role_unbond_token_callback(&mut self, role_was_set: bool)
        ensures
            final(self)@ == (FarmStakingView {
                unbond_token_transfer_role_set: role_was_set
                    || old(self)@.unbond_token_transfer_role_set,
                ..old(self)@
            }),
    ;
}

impl UnbondTokenModule for FarmStaking {
    fn set_unbond_token_id(&mut self, unbond_token_id: TokenIdentifier) {
        self.unbond_token_id = Some(unbond_token_id);
    }

    fn t_role_unbond_token_callback(&mut self, role_was_set: bool) {
        if role_was_set {
            self.unbond_token_transfer_role_set = true;
        }
    }
}

} // verus!
