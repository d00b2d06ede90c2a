//! The reasons for which a call is rejected. A rejected call changes nothing.

use vstd::prelude::*;

verus! {

#[derive(Clone, Copy, PartialEq, Eq, Structural, Debug)]
pub enum GuildError {
    /// The guild is closing: nothing that adds stake is accepted any more.
    GuildClosing,
    /// The call is only valid once the guild is closing.
    GuildNotClosing,
    /// The shared configuration has paused every guild.
    GloballyPaused,
    /// The guild has not been resumed yet.
    NotActive,
    /// The farm token of the guild has not been set.
    NoFarmToken,
    EmptyPayments,
    BadPayments,
    /// A payment to the factory that is not in the staking token.
    InvalidPayment,
    InvalidToken,
    GuildMasterMustStakeFirst,
    NotEnoughStake,
    MaxStakedExceeded,
    OnlyGuildMaster,
    MustSendAllTokens,
    GuildMasterCannotMigrate,
    UnbondPeriodNotOver,
    CannotCancelUnbond,
    WithdrawTooHigh,
    TierNotFound,
    MathFailure,
    DivisionByZero,
    NegativeResult,
    ZeroRewardAmount,
    AlreadyProducingRewards,
    ZeroAmount,
    InvalidApr,
    InvalidTierValues,
    InvalidStakeEntry,
    InvalidLastGuildMasterTier,
    InvalidLastUserTier,
    TiersAlreadySet,
    InvalidUnbondEpochs,
    InvalidValue,
    UnknownGuild,
    GuildNotClosed,
    OnlyGuilds,
    AlreadyHasGuild,
    DivisionSafetyTooSmall,
    OriginalCallerNotAllowed,
    ConfigNotDeployed,
    ConfigSetupNotComplete,
    OnlyGuildMasterMayCall,
    FarmTokenTransferRoleNotSet,
    UnbondTokenTransferRoleNotSet,
}

impl GuildError {
    /// The text that goes with each rejection.
    pub open spec fn message_text(self) -> Seq<char> {
        match self {
            GuildError::GuildClosing => "Guild closing"@,
            GuildError::GuildNotClosing => "Guild not closing"@,
            GuildError::GloballyPaused => "All guilds are currently paused"@,
            GuildError::NotActive => "Not active"@,
            GuildError::NoFarmToken => "No farm token"@,
            GuildError::EmptyPayments => "Empty payments"@,
            GuildError::BadPayments => "Bad payments"@,
            GuildError::InvalidPayment => "Invalid payment"@,
            GuildError::InvalidToken => "Invalid token"@,
            GuildError::GuildMasterMustStakeFirst => "Guild master must stake first"@,
            GuildError::NotEnoughStake => "Not enough stake"@,
            GuildError::MaxStakedExceeded => "May not stake more in this guild"@,
            GuildError::OnlyGuildMaster => "Only guild master may close guild"@,
            GuildError::MustSendAllTokens => "Must send all tokens when closing guild"@,
            GuildError::GuildMasterCannotMigrate => "Guild master cannot use this endpoint"@,
            GuildError::UnbondPeriodNotOver => "Unbond period not over"@,
            GuildError::CannotCancelUnbond => "May not cancel unbond for this token"@,
            GuildError::WithdrawTooHigh =>
                "Withdraw amount is higher than the remaining uncollected rewards!"@,
            GuildError::TierNotFound => "Tier not found"@,
            GuildError::MathFailure => "Math failure"@,
            GuildError::DivisionByZero => "division by 0"@,
            GuildError::NegativeResult => "cannot subtract because result would be negative"@,
            GuildError::ZeroRewardAmount => "Cannot produce zero reward amount"@,
            GuildError::AlreadyProducingRewards => "Producing rewards is already enabled"@,
            GuildError::ZeroAmount => "Zero amount"@,
            GuildError::InvalidApr => "Invalid APR"@,
            GuildError::InvalidTierValues => "Invalid values"@,
            GuildError::InvalidStakeEntry => "Invalid stake entry"@,
            GuildError::InvalidLastGuildMasterTier => "Invalid last guild master tier"@,
            GuildError::InvalidLastUserTier => "Invalid last user tier value"@,
            GuildError::TiersAlreadySet => "May not add more tiers after contract initialized"@,
            GuildError::InvalidUnbondEpochs => "Invalid min unbond epochs"@,
            GuildError::InvalidValue => "Invalid value"@,
            GuildError::UnknownGuild => "Unknown guild"@,
            GuildError::GuildNotClosed => "Guild not closed or not known"@,
            GuildError::OnlyGuilds => "Only guilds may call this endpoint"@,
            GuildError::AlreadyHasGuild => "Already have a guild deployed"@,
            GuildError::DivisionSafetyTooSmall => "Division safety constant too small"@,
            GuildError::OriginalCallerNotAllowed => "May not use original caller arg"@,
            GuildError::ConfigNotDeployed => "Config not deployed yet"@,
            GuildError::ConfigSetupNotComplete => "Config setup not complete"@,
            GuildError::OnlyGuildMasterMayCall => "Only guild master may call this function"@,
            GuildError::FarmTokenTransferRoleNotSet => "Transfer role not set for farm token"@,
            GuildError::UnbondTokenTransferRoleNotSet => "Transfer role not set for unbond token"@,
        }
    }

    pub fn message(self) -> (r: &'static str)
        ensures
            r@ == self.message_text(),
    {
        match self {
            GuildError::GuildClosing => "Guild closing",
            GuildError::GuildNotClosing => "Guild not closing",
            GuildError::GloballyPaused => "All guilds are currently paused",
            GuildError::NotActive => "Not active",
            GuildError::NoFarmToken => "No farm token",
            GuildError::EmptyPayments => "Empty payments",
            GuildError::BadPayments => "Bad payments",
            GuildError::InvalidPayment => "Invalid payment",
            GuildError::InvalidToken => "Invalid token",
            GuildError::GuildMasterMustStakeFirst => "Guild master must stake first",
            GuildError::NotEnoughStake => "Not enough stake",
            GuildError::MaxStakedExceeded => "May not stake more in this guild",
            GuildError::OnlyGuildMaster => "Only guild master may close guild",
            GuildError::MustSendAllTokens => "Must send all tokens when closing guild",
            GuildError::GuildMasterCannotMigrate => "Guild master cannot use this endpoint",
            GuildError::UnbondPeriodNotOver => "Unbond period not over",
            GuildError::CannotCancelUnbond => "May not cancel unbond for this token",
            GuildError::WithdrawTooHigh =>
                "Withdraw amount is higher than the remaining uncollected rewards!",
            GuildError::TierNotFound => "Tier not found",
            GuildError::MathFailure => "Math failure",
            GuildError::DivisionByZero => "division by 0",
            GuildError::NegativeResult => "cannot subtract because result would be negative",
            GuildError::ZeroRewardAmount => "Cannot produce zero reward amount",
            GuildError::AlreadyProducingRewards => "Producing rewards is already enabled",
            GuildError::ZeroAmount => "Zero amount",
            GuildError::InvalidApr => "Invalid APR",
            GuildError::InvalidTierValues => "Invalid values",
            GuildError::InvalidStakeEntry => "Invalid stake entry",
            GuildError::InvalidLastGuildMasterTier => "Invalid last guild master tier",
            GuildError::InvalidLastUserTier => "Invalid last user tier value",
            GuildError::TiersAlreadySet => "May not add more tiers after contract initialized",
            GuildError::InvalidUnbondEpochs => "Invalid min unbond epochs",
            GuildError::InvalidValue => "Invalid value",
            GuildError::UnknownGuild => "Unknown guild",
            GuildError::GuildNotClosed => "Guild not closed or not known",
            GuildError::OnlyGuilds => "Only guilds may call this endpoint",
            GuildError::AlreadyHasGuild => "Already have a guild deployed",
            GuildError::DivisionSafetyTooSmall => "Division safety constant too small",
            GuildError::OriginalCallerNotAllowed => "May not use original caller arg",
            GuildError::ConfigNotDeployed => "Config not deployed yet",
            GuildError::ConfigSetupNotComplete => "Config setup not complete",
            GuildError::OnlyGuildMasterMayCall => "Only guild master may call this function",
            GuildError::FarmTokenTransferRoleNotSet => "Transfer role not set for farm token",
            GuildError::UnbondTokenTransferRoleNotSet => "Transfer role not set for unbond token",
        }
    }
}

} // verus!
