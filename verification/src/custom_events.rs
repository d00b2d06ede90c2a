//! What a guild reports of a migration, for those who follow it from outside.

use vstd::prelude::*;
use crate::amount::Amount;
use crate::guild_factory::Address;
use crate::token_attributes::{EsdtTokenPayment, EsdtTokenPaymentView};

verus! {

/// A migration: where to, how many staking tokens, and the rewards paid on
/// the way out.
pub struct MigrateToOtherFarmData {
    pub guild_address: Address,
    pub total_farming_tokens: Amount,
    pub base_rewards: EsdtTokenPayment,
}

pub struct MigrateToOtherFarmDataView {
    pub guild_address: Address,
    pub total_farming_tokens: nat,
    pub base_rewards: EsdtTokenPaymentView,
}

impl View for MigrateToOtherFarmData {
    type V = MigrateToOtherFarmDataView;

    open spec fn view(&self) -> MigrateToOtherFarmDataView {
        MigrateToOtherFarmDataView {
            guild_address: self.guild_address,
            total_farming_tokens: self.total_farming_tokens@,
            base_rewards: self.base_rewards@,
        }
    }
}

} // verus!
