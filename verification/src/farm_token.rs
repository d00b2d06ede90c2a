//! The position token of a guild.

use vstd::prelude::*;
use crate::farm_staking::{FarmStaking, FarmStakingView};
use crate::token_attributes::TokenIdentifier;

verus! {

/// What a guild knows of its position token.
pub trait FarmTokenModule: View<V = FarmStakingView> {
    /// Notes the position token of the guild, once it was issued.
    fn set_farm_token_id(&mut self, farm_token_id: TokenIdentifier)
        ensures
            final(self)@ == (FarmStakingView { farm_token_id: Some(farm_token_id), ..old(self)@ }),
    ;

    /// Notes that the guild may transfer its position token, where setting
    /// the role went through.
    fn t_role_farm_token_callback(&mut self, role_was_set: bool)
        ensures
            final(self)@ == (FarmStakingView {
                farm_token_transfer_role_set: role_was_set
                    || old(self)@.farm_token_transfer_role_set,
                ..old(self)@
            }),
    ;
}

impl FarmTokenModule for FarmStaking {
    fn set_farm_token_id(&mut self, farm_token_id: TokenIdentifier) {
        self.farm_token_id = Some(farm_token_id);
    }

    fn t_role_farm_token_callback(&mut self, role_was_set: bool) {
        if role_was_set {
            self.farm_token_transfer_role_set = true;
        }
    }
}

} // verus!
