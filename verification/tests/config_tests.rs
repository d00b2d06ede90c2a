use guild_sc::amount::Amount;
use guild_sc::errors::GuildError;
use guild_sc::farm_staking::FarmStaking;
use guild_sc::guild_config::{
    GlobalConfigModule, GuildScConfig, InitArgs, TierModule, MAX_MIN_UNBOND_EPOCHS,
};
use guild_sc::read_config::ReadConfigModule;
use guild_sc::guild_factory::{FactoryModule, GuildFactory};
use guild_sc::guild_interactions::GuildInteractionsModule;
use guild_sc::tier_types::{GuildMasterRewardTier, RewardTier, UserRewardTier, MAX_PERCENT};
use guild_sc::token_attributes::TokenIdentifier;

const MAX_STAKE: u64 = 1_000_000;

fn init_args() -> InitArgs {
    InitArgs {
        total_staking_tokens_minted: Amount::from_u64(10_000_000),
        max_staked_tokens: Amount::from_u64(MAX_STAKE),
        user_unbond_epochs: 5,
        guild_master_unbond_epochs: 7,
        min_stake_user: Amount::from_u64(10),
        min_stake_guild_master: Amount::from_u64(100),
        seconds_per_block: 6,
    }
}

fn config() -> GuildScConfig {
    GuildScConfig::init(init_args()).unwrap()
}

fn master_tier(max_stake: u64, apr: u64) -> GuildMasterRewardTier {
    GuildMasterRewardTier::new(Amount::from_u64(max_stake), apr, apr / 2)
}

fn factory_with_guild(guild: u64) -> GuildFactory {
    let mut factory = GuildFactory::init(
        1,
        TokenIdentifier { id: 1 },
        Amount::from_u128(2_000_000_000_000_000_000),
    )
    .unwrap();
    factory.config_deployed = true;
    factory.register_guild(guild + 1000, guild).unwrap();
    factory
}

#[test]
fn init_takes_its_arguments() {
    let config = config();
    assert_eq!(config.total_staking_token_minted.to_u64(), Some(10_000_000));
    assert_eq!(config.max_staked_tokens.to_u64(), Some(MAX_STAKE));
    assert_eq!(config.min_unbond_epochs_user, 5);
    assert_eq!(config.min_unbond_epochs_guild_master, 7);
    assert_eq!(config.min_stake_user.to_u64(), Some(10));
    assert_eq!(config.min_stake_guild_master.to_u64(), Some(100));
    assert_eq!(config.seconds_per_block, 6);
    assert_eq!(config.total_staking_token_staked.to_u64(), Some(0));
    assert_eq!(config.per_block_reward_amount.to_u64(), Some(0));
    assert!(!config.global_pause_status);
    assert!(config.guild_master_tiers.is_empty());
    assert!(config.user_tiers.is_empty());
}

#[test]
fn init_rejects_long_unbonding_and_zero_block_time() {
    let mut args = init_args();
    args.user_unbond_epochs = MAX_MIN_UNBOND_EPOCHS + 1;
    assert_eq!(GuildScConfig::init(args).err(), Some(GuildError::InvalidUnbondEpochs));
    let mut args = init_args();
    args.guild_master_unbond_epochs = MAX_MIN_UNBOND_EPOCHS + 1;
    assert_eq!(GuildScConfig::init(args).err(), Some(GuildError::InvalidUnbondEpochs));
    let mut args = init_args();
    args.seconds_per_block = 0;
    assert_eq!(GuildScConfig::init(args).err(), Some(GuildError::InvalidValue));
    let mut args = init_args();
    args.user_unbond_epochs = MAX_MIN_UNBOND_EPOCHS;
    assert!(GuildScConfig::init(args).is_ok());
}

#[test]
fn setters_validate() {
    let mut config = config();
    assert_eq!(config.set_min_unbond_epochs_user(31), Err(GuildError::InvalidUnbondEpochs));
    assert_eq!(config.min_unbond_epochs_user, 5);
    assert_eq!(config.set_min_unbond_epochs_user(30), Ok(()));
    assert_eq!(config.min_unbond_epochs_user, 30);
    assert_eq!(
        config.set_min_unbond_epochs_guild_master(31),
        Err(GuildError::InvalidUnbondEpochs)
    );
    assert_eq!(config.set_min_unbond_epochs_guild_master(0), Ok(()));
    assert_eq!(config.min_unbond_epochs_guild_master, 0);

    assert_eq!(config.set_seconds_per_block(0), Err(GuildError::InvalidValue));
    assert_eq!(config.set_seconds_per_block(3), Ok(()));
    assert_eq!(config.seconds_per_block, 3);

    assert_eq!(
        config.set_per_block_reward_amount(Amount::zero()),
        Err(GuildError::InvalidValue)
    );
    assert_eq!(config.set_per_block_reward_amount(Amount::from_u64(9)), Ok(()));
    assert_eq!(config.per_block_reward_amount.to_u64(), Some(9));

    config.set_min_stake_user(Amount::from_u64(11));
    config.set_min_stake_guild_master(Amount::from_u64(12));
    config.set_max_staked_tokens(Amount::from_u64(13));
    config.set_total_staking_token_minted(Amount::from_u64(14));
    assert_eq!(config.min_stake_user.to_u64(), Some(11));
    assert_eq!(config.min_stake_guild_master.to_u64(), Some(12));
    assert_eq!(config.max_staked_tokens.to_u64(), Some(13));
    assert_eq!(config.total_staking_token_minted.to_u64(), Some(14));
}

#[test]
fn pausing_all_guilds() {
    let mut config = config();
    assert_eq!(config.require_not_globally_paused(), Ok(()));
    config.pause_all_guilds();
    assert_eq!(config.require_not_globally_paused(), Err(GuildError::GloballyPaused));
    config.unpause_all_guilds();
    assert_eq!(config.require_not_globally_paused(), Ok(()));
}

#[test]
fn only_guilds_report_stake() {
    let mut config = config();
    let mut factory = factory_with_guild(7);
    assert_eq!(
        config.increase_staked_tokens(&factory, 8, &Amount::from_u64(5)),
        Err(GuildError::OnlyGuilds)
    );
    assert_eq!(config.total_staking_token_staked.to_u64(), Some(0));
    assert_eq!(config.increase_staked_tokens(&factory, 7, &Amount::from_u64(5)), Ok(()));
    assert_eq!(config.total_staking_token_staked.to_u64(), Some(5));
    assert_eq!(
        config.decrease_staked_tokens(&factory, 8, &Amount::from_u64(5)),
        Err(GuildError::OnlyGuilds)
    );
    assert_eq!(
        config.decrease_staked_tokens(&factory, 7, &Amount::from_u64(6)),
        Err(GuildError::NegativeResult)
    );
    assert_eq!(config.total_staking_token_staked.to_u64(), Some(5));
    assert_eq!(config.decrease_staked_tokens(&factory, 7, &Amount::from_u64(2)), Ok(()));
    assert_eq!(config.total_staking_token_staked.to_u64(), Some(3));

    // a guild that has closed may still report
    factory.close_guild_no_rewards_remaining(7).unwrap();
    assert_eq!(config.require_guild_sc_caller(&factory, 7), Ok(()));
    assert_eq!(config.decrease_staked_tokens(&factory, 7, &Amount::from_u64(3)), Ok(()));
    assert_eq!(config.total_staking_token_staked.to_u64(), Some(0));
}

#[test]
fn guild_master_tiers_are_registered_once_and_in_order() {
    let mut config = config();
    assert_eq!(
        config.add_guild_master_tiers(vec![master_tier(100, 500), master_tier(MAX_STAKE, 0)]),
        Err(GuildError::InvalidApr)
    );
    assert_eq!(
        config.add_guild_master_tiers(vec![master_tier(100, 500), master_tier(100, 600)]),
        Err(GuildError::InvalidStakeEntry)
    );
    assert_eq!(
        config.add_guild_master_tiers(vec![master_tier(100, 500), master_tier(99, 600)]),
        Err(GuildError::InvalidStakeEntry)
    );
    assert_eq!(
        config.add_guild_master_tiers(vec![master_tier(100, 500), master_tier(200, 600)]),
        Err(GuildError::InvalidLastGuildMasterTier)
    );
    assert!(config.guild_master_tiers.is_empty());

    assert_eq!(
        config.add_guild_master_tiers(vec![
            master_tier(100, 500),
            master_tier(1_000, 600),
            master_tier(MAX_STAKE, 700),
        ]),
        Ok(())
    );
    assert_eq!(config.guild_master_tiers.len(), 3);
    assert_eq!(config.guild_master_tiers[1].max_stake.to_u64(), Some(1_000));
    assert_eq!(config.guild_master_tiers[1].apr, 600);
    assert_eq!(config.guild_master_tiers[1].compounded_apr, 300);

    assert_eq!(
        config.add_guild_master_tiers(vec![master_tier(MAX_STAKE, 700)]),
        Err(GuildError::TiersAlreadySet)
    );
    assert_eq!(config.guild_master_tiers.len(), 3);
}

#[test]
fn user_tiers_are_registered_once_and_in_order() {
    let mut config = config();
    let tier = |bound: u64, apr: u64| UserRewardTier::new(bound, apr, apr);
    assert_eq!(
        config.add_user_tiers(vec![tier(0, 500), tier(MAX_PERCENT, 600)]),
        Err(GuildError::InvalidTierValues)
    );
    assert_eq!(
        config.add_user_tiers(vec![tier(MAX_PERCENT + 1, 500)]),
        Err(GuildError::InvalidTierValues)
    );
    assert_eq!(
        config.add_user_tiers(vec![tier(500, 0), tier(MAX_PERCENT, 600)]),
        Err(GuildError::InvalidTierValues)
    );
    assert_eq!(
        config.add_user_tiers(vec![tier(500, 500), tier(500, 600)]),
        Err(GuildError::InvalidStakeEntry)
    );
    assert_eq!(
        config.add_user_tiers(vec![tier(500, 500), tier(9_999, 600)]),
        Err(GuildError::InvalidLastUserTier)
    );
    assert!(config.user_tiers.is_empty());
    assert_eq!(
        config.add_user_tiers(vec![tier(500, 500), tier(MAX_PERCENT, 600)]),
        Ok(())
    );
    assert_eq!(config.user_tiers, vec![tier(500, 500), tier(MAX_PERCENT, 600)]);
    assert_eq!(
        config.add_user_tiers(vec![tier(MAX_PERCENT, 600)]),
        Err(GuildError::TiersAlreadySet)
    );
}

#[test]
fn set_apr_test() {
    let mut config = config();
    config
        .add_user_tiers(vec![UserRewardTier::new(MAX_PERCENT, 2_500, 2_500)])
        .unwrap();
    assert_eq!(config.set_user_tier_apr(MAX_PERCENT, 5_000, 4_000), Ok(()));
    assert_eq!(config.user_tiers, vec![UserRewardTier::new(MAX_PERCENT, 5_000, 4_000)]);
    assert_eq!(
        config.set_user_tier_apr(MAX_PERCENT - 1, 5_000, 4_000),
        Err(GuildError::TierNotFound)
    );
}

#[test]
fn set_guild_master_tier_apr_finds_the_tier_by_its_bound() {
    let mut config = config();
    config
        .add_guild_master_tiers(vec![master_tier(100, 500), master_tier(MAX_STAKE, 700)])
        .unwrap();
    assert_eq!(
        config.set_guild_master_tier_apr(Amount::from_u64(MAX_STAKE), 900, 800),
        Ok(())
    );
    assert_eq!(config.guild_master_tiers[0].apr, 500);
    assert_eq!(config.guild_master_tiers[1].apr, 900);
    assert_eq!(config.guild_master_tiers[1].compounded_apr, 800);
    assert_eq!(config.guild_master_tiers[1].max_stake.to_u64(), Some(MAX_STAKE));
    assert_eq!(
        config.set_guild_master_tier_apr(Amount::from_u64(101), 900, 800),
        Err(GuildError::TierNotFound)
    );
}

#[test]
fn add_tier_and_set_apr_on_a_bare_table() {
    let mut table: Vec<UserRewardTier> = Vec::new();
    assert_eq!(GuildScConfig::add_tier(&mut table, UserRewardTier::new(10, 1, 1)), Ok(()));
    assert_eq!(
        GuildScConfig::add_tier(&mut table, UserRewardTier::new(10, 2, 2)),
        Err(GuildError::InvalidStakeEntry)
    );
    assert_eq!(GuildScConfig::add_tier(&mut table, UserRewardTier::new(11, 2, 2)), Ok(()));
    assert_eq!(table.len(), 2);
    assert_eq!(GuildScConfig::set_apr(&mut table, UserRewardTier::new(11, 7, 8)), Ok(1));
    assert_eq!(table[1], UserRewardTier::new(11, 7, 8));
    assert_eq!(
        GuildScConfig::set_apr(&mut table, UserRewardTier::new(12, 7, 8)),
        Err(GuildError::TierNotFound)
    );
}

#[test]
fn find_tier_common_finds_the_first_tier_in_range() {
    let guild = FarmStaking::init(
        7,
        1,
        TokenIdentifier { id: 1 },
        Amount::from_u64(1_000),
        &config(),
        8,
    )
    .unwrap();
    let tiers = vec![master_tier(100, 500), master_tier(1_000, 600), master_tier(MAX_STAKE, 700)];
    assert_eq!(guild.find_tier_common(&Amount::from_u64(0), 0, &tiers), Some(0));
    assert_eq!(guild.find_tier_common(&Amount::from_u64(100), 0, &tiers), Some(0));
    assert_eq!(guild.find_tier_common(&Amount::from_u64(101), 0, &tiers), Some(1));
    assert_eq!(guild.find_tier_common(&Amount::from_u64(MAX_STAKE), 9_999, &tiers), Some(2));
    assert_eq!(guild.find_tier_common(&Amount::from_u64(MAX_STAKE + 1), 0, &tiers), None);

    let user_tiers = vec![UserRewardTier::new(500, 1, 1), UserRewardTier::new(MAX_PERCENT, 2, 2)];
    let huge = Amount::from_u64(u64::MAX);
    assert_eq!(guild.find_tier_common(&huge, 500, &user_tiers), Some(0));
    assert_eq!(guild.find_tier_common(&huge, 501, &user_tiers), Some(1));
    assert_eq!(guild.find_tier_common(&huge, MAX_PERCENT + 1, &user_tiers), None);
    let none: Vec<UserRewardTier> = Vec::new();
    assert_eq!(guild.find_tier_common(&huge, 0, &none), None);
}

#[test]
fn reward_tier_comparisons() {
    let low = master_tier(100, 500);
    let high = master_tier(200, 600);
    assert!(low.is_below(&high));
    assert!(!high.is_below(&low));
    assert!(low.is_below_or_equal(&high));
    assert!(low.is_below_or_equal(&master_tier(100, 1)));
    assert!(low.is_equal(&master_tier(100, 1)));
    assert!(!low.is_equal(&high));
    assert!(low.is_in_range(&Amount::from_u64(100), 0));
    assert!(!low.is_in_range(&Amount::from_u64(101), 0));
    assert_eq!(low.get_apr(), 500);
    assert_eq!(low.get_compounded_apr(), 250);
    let mut changed = master_tier(100, 500);
    changed.set_apr(&high);
    assert_eq!(changed.get_apr(), 600);
    assert_eq!(changed.get_compounded_apr(), 300);
    assert_eq!(changed.max_stake.to_u64(), Some(100));

    let user_low = UserRewardTier::new(10, 1, 2);
    let user_high = UserRewardTier::new(20, 3, 4);
    assert!(user_low.is_below(&user_high));
    assert!(user_low.is_below_or_equal(&user_low));
    assert!(user_low.is_equal(&UserRewardTier::new(10, 9, 9)));
    assert!(user_low.is_in_range(&Amount::zero(), 10));
    assert!(!user_low.is_in_range(&Amount::zero(), 11));
    let mut changed = user_low;
    changed.set_apr(&user_high);
    assert_eq!(changed, UserRewardTier::new(10, 3, 4));
}
