//! Staking and reward accounting for guilds: a factory hands out rewards, a
//! shared configuration holds the tier tables, and each guild tracks staked
//! positions and accrues block rewards for its master and its users.
//!
//! The three are plain values here. Every call on a guild takes the
//! configuration and the factory that it reads and writes, the positions that
//! are handed in, and the block and epoch of the call, and hands back what is
//! to be paid out and minted. A call that is rejected leaves everything as it
//! was.

// values
pub mod amount;
pub mod errors;
pub mod math;
pub mod request_id;
pub mod tier_types;
pub mod token_attributes;
pub mod tokens_per_tier;

// the shared configuration
pub mod guild_config;

// the factory
pub mod guild_factory;
pub mod guild_interactions;

// a guild: its state, its accounting, its rewards
pub mod call_config;
pub mod custom_rewards;
pub mod farm_base;
pub mod farm_staking;
pub mod farm_token;
pub mod read_config;
pub mod rewards;
pub mod storage_cache;
pub mod total_tokens;
pub mod unbond_token;

// the calls on a guild
pub mod claim_rewards;
pub mod compound_rewards;
pub mod custom_events;
pub mod migration;
pub mod stake_farm;
pub mod unbond_farm;
pub mod unstake_farm;

// what holds of all of it
pub mod laws;
