use guild_sc::amount::Amount;
use guild_sc::errors::GuildError;
use guild_sc::farm_staking::State;
use guild_sc::guild_config::{GlobalConfigModule, GuildScConfig, InitArgs, TierModule};
use guild_sc::guild_factory::{
    FactoryModule, GetGuildResultType, GuildFactory, BASE_REWARD_MULTIPLIER, MIN_DIV_SAFETY,
};
use guild_sc::guild_interactions::GuildInteractionsModule;
use guild_sc::tier_types::{GuildMasterRewardTier, UserRewardTier, MAX_PERCENT};
use guild_sc::token_attributes::TokenIdentifier;
use guild_sc::farm_token::FarmTokenModule;
use guild_sc::unbond_token::UnbondTokenModule;

const FARMING: TokenIdentifier = TokenIdentifier { id: 1 };
const OTHER: TokenIdentifier = TokenIdentifier { id: 9 };

fn factory() -> GuildFactory {
    let mut factory =
        GuildFactory::init(50, FARMING, Amount::from_u128(MIN_DIV_SAFETY as u128 + 1)).unwrap();
    factory.config_deployed = true;
    factory
}

fn config() -> GuildScConfig {
    GuildScConfig::init(InitArgs {
        total_staking_tokens_minted: Amount::from_u64(10_000_000),
        max_staked_tokens: Amount::from_u64(1_000_000),
        user_unbond_epochs: 5,
        guild_master_unbond_epochs: 7,
        min_stake_user: Amount::zero(),
        min_stake_guild_master: Amount::zero(),
        seconds_per_block: 6,
    })
    .unwrap()
}

#[test]
fn factory_needs_a_large_division_safety_constant() {
    assert_eq!(
        GuildFactory::init(50, FARMING, Amount::from_u64(MIN_DIV_SAFETY)).err(),
        Some(GuildError::DivisionSafetyTooSmall)
    );
    let factory =
        GuildFactory::init(50, FARMING, Amount::from_u128(MIN_DIV_SAFETY as u128 + 1)).unwrap();
    assert_eq!(factory.address, 50);
    assert!(!factory.config_deployed);
    assert_eq!(factory.remaining_rewards.to_u64(), Some(0));
    assert!(factory.deployed_guilds.is_empty());
    assert!(factory.closed_guilds.is_empty());
}

#[test]
fn request_rewards_grants_ten_times_the_request() {
    let mut factory = factory();
    factory.register_guild(1, 11).unwrap();
    factory.deposit_rewards_admins(FARMING, &Amount::from_u64(1_000)).unwrap();
    assert_eq!(BASE_REWARD_MULTIPLIER, 10);
    assert_eq!(factory.rewards_for_request(&Amount::from_u64(40)).to_u64(), Some(400));
    let granted = factory.request_rewards(11, &Amount::from_u64(40)).unwrap();
    assert_eq!(granted.to_u64(), Some(400));
    assert_eq!(factory.remaining_rewards.to_u64(), Some(600));
}

#[test]
fn request_rewards_grants_what_is_left() {
    let mut factory = factory();
    factory.register_guild(1, 11).unwrap();
    factory.deposit_rewards_admins(FARMING, &Amount::from_u64(1_000)).unwrap();
    let granted = factory.request_rewards(11, &Amount::from_u64(101)).unwrap();
    assert_eq!(granted.to_u64(), Some(1_000));
    assert_eq!(factory.remaining_rewards.to_u64(), Some(0));
    let granted = factory.request_rewards(11, &Amount::from_u64(1)).unwrap();
    assert_eq!(granted.to_u64(), Some(0));
}

#[test]
fn request_rewards_is_for_known_guilds() {
    let mut factory = factory();
    factory.deposit_rewards_admins(FARMING, &Amount::from_u64(1_000)).unwrap();
    assert_eq!(
        factory.request_rewards(11, &Amount::from_u64(1)).err(),
        Some(GuildError::UnknownGuild)
    );
    assert_eq!(factory.remaining_rewards.to_u64(), Some(1_000));
    assert_eq!(factory.require_known_guild(11), Err(GuildError::UnknownGuild));
}

#[test]
fn deposits_are_in_the_staking_token() {
    let mut factory = factory();
    assert_eq!(
        factory.deposit_rewards_admins(OTHER, &Amount::from_u64(5)),
        Err(GuildError::InvalidPayment)
    );
    assert_eq!(
        factory.deposit_rewards_common(OTHER, &Amount::from_u64(5)),
        Err(GuildError::InvalidPayment)
    );
    assert_eq!(factory.remaining_rewards.to_u64(), Some(0));
    assert_eq!(factory.deposit_rewards_common(FARMING, &Amount::from_u64(5)), Ok(()));
    assert_eq!(factory.remaining_rewards.to_u64(), Some(5));
    factory.pay_out(&Amount::from_u64(2));
    assert_eq!(factory.remaining_rewards.to_u64(), Some(3));
}

#[test]
fn register_keeps_one_guild_per_master() {
    let mut factory = factory();
    assert_eq!(factory.register_guild(1, 11), Ok(()));
    assert_eq!(factory.register_guild(1, 12), Err(GuildError::AlreadyHasGuild));
    assert_eq!(factory.register_guild(2, 11), Err(GuildError::InvalidValue));
    assert_eq!(factory.register_guild(2, 12), Ok(()));
    assert_eq!(
        factory.get_all_guilds(),
        vec![
            GetGuildResultType { guild: 11, guild_master: 1 },
            GetGuildResultType { guild: 12, guild_master: 2 },
        ]
    );
    assert_eq!(factory.find_guild(12), Some(1));
    assert_eq!(factory.find_guild(13), None);
    assert!(factory.has_guild_of(2));
    assert!(!factory.has_guild_of(3));
    assert_eq!(factory.require_guild_master_caller(12, 2), Ok(()));
    assert_eq!(
        factory.require_guild_master_caller(12, 1),
        Err(GuildError::OnlyGuildMasterMayCall)
    );
    assert_eq!(factory.check_payment_is_farming_token(FARMING), Ok(()));
    assert_eq!(
        factory.check_payment_is_farming_token(OTHER),
        Err(GuildError::InvalidPayment)
    );

    let mut undeployed = GuildFactory::init(
        50,
        FARMING,
        Amount::from_u128(MIN_DIV_SAFETY as u128 + 1),
    )
    .unwrap();
    assert_eq!(undeployed.register_guild(1, 11), Err(GuildError::ConfigNotDeployed));
}

#[test]
fn closing_moves_a_guild_to_the_closed_ones() {
    let mut factory = factory();
    factory.register_guild(1, 11).unwrap();
    factory.register_guild(2, 12).unwrap();
    factory.register_guild(3, 13).unwrap();
    assert_eq!(factory.require_closed_guild(11), Err(GuildError::GuildNotClosed));

    assert_eq!(
        factory.deposit_rewards_guild(14, FARMING, &Amount::from_u64(7)),
        Err(GuildError::UnknownGuild)
    );
    assert_eq!(
        factory.deposit_rewards_guild(11, OTHER, &Amount::from_u64(7)),
        Err(GuildError::InvalidPayment)
    );
    assert_eq!(factory.deposit_rewards_guild(11, FARMING, &Amount::from_u64(7)), Ok(()));
    assert_eq!(factory.remaining_rewards.to_u64(), Some(7));
    assert_eq!(factory.require_closed_guild(11), Ok(()));
    assert!(!factory.is_deployed_guild(11));
    // the last entry took the place of the one that left
    assert_eq!(
        factory.get_all_guilds(),
        vec![
            GetGuildResultType { guild: 13, guild_master: 3 },
            GetGuildResultType { guild: 12, guild_master: 2 },
        ]
    );

    assert_eq!(
        factory.close_guild_no_rewards_remaining(11),
        Err(GuildError::UnknownGuild)
    );
    assert_eq!(factory.close_guild_no_rewards_remaining(12), Ok(()));
    assert!(factory.is_closed_guild(12));
    assert_eq!(factory.remaining_rewards.to_u64(), Some(7));
    assert_eq!(factory.closed_guilds, vec![11, 12]);
    // the master of a closed guild may deploy again
    assert_eq!(factory.register_guild(1, 21), Ok(()));
}

#[test]
fn deploy_guild_hands_out_an_empty_guild() {
    let mut factory = factory();
    let config = config();
    let guild = factory.deploy_guild(&config, 1, 11).unwrap();
    assert!(guild.is_well_formed());
    assert_eq!(guild.own_address, 11);
    assert_eq!(guild.owner, 50);
    assert_eq!(guild.guild_master, 1);
    assert_eq!(guild.state, State::Inactive);
    assert_eq!(guild.farming_token_id, FARMING);
    assert_eq!(guild.reward_token_id, FARMING);
    assert_eq!(guild.internal_seconds_per_block, 6);
    assert!(factory.is_deployed_guild(11));
    assert_eq!(factory.deploy_guild(&config, 1, 12).err(), Some(GuildError::AlreadyHasGuild));
    assert_eq!(factory.deploy_guild(&config, 2, 11).err(), Some(GuildError::InvalidValue));

    let mut undeployed = GuildFactory::init(
        50,
        FARMING,
        Amount::from_u128(MIN_DIV_SAFETY as u128 + 1),
    )
    .unwrap();
    assert_eq!(
        undeployed.deploy_guild(&config, 1, 11).err(),
        Some(GuildError::ConfigNotDeployed)
    );
}

#[test]
fn resume_guild_goes_through_every_check() {
    let mut factory = factory();
    let mut config = config();
    let mut guild = factory.deploy_guild(&config, 1, 11).unwrap();
    let mut stranger = guild_sc::farm_staking::FarmStaking::init(
        99,
        50,
        FARMING,
        Amount::from_u64(1_000),
        &config,
        1,
    )
    .unwrap();

    assert_eq!(
        factory.resume_guild_endpoint(&config, &mut stranger, 1, 0),
        Err(GuildError::UnknownGuild)
    );
    assert_eq!(
        factory.resume_guild_endpoint(&config, &mut guild, 2, 0),
        Err(GuildError::OnlyGuildMasterMayCall)
    );
    assert_eq!(
        factory.resume_guild_endpoint(&config, &mut guild, 1, 0),
        Err(GuildError::ConfigSetupNotComplete)
    );
    config
        .add_user_tiers(vec![UserRewardTier::new(MAX_PERCENT, 2_500, 2_500)])
        .unwrap();
    config
        .add_guild_master_tiers(vec![GuildMasterRewardTier::new(
            Amount::from_u64(1_000_000),
            2_500,
            2_500,
        )])
        .unwrap();
    assert_eq!(
        factory.resume_guild_endpoint(&config, &mut guild, 1, 0),
        Err(GuildError::NoFarmToken)
    );
    guild.set_farm_token_id(TokenIdentifier { id: 2 });
    assert_eq!(
        factory.resume_guild_endpoint(&config, &mut guild, 1, 0),
        Err(GuildError::InvalidToken)
    );
    guild.set_unbond_token_id(TokenIdentifier { id: 3 });
    assert_eq!(
        factory.resume_guild_endpoint(&config, &mut guild, 1, 0),
        Err(GuildError::FarmTokenTransferRoleNotSet)
    );
    guild.t_role_farm_token_callback(false);
    assert!(!guild.farm_token_transfer_role_set);
    guild.t_role_farm_token_callback(true);
    assert_eq!(
        factory.resume_guild_endpoint(&config, &mut guild, 1, 0),
        Err(GuildError::UnbondTokenTransferRoleNotSet)
    );
    guild.t_role_unbond_token_callback(true);
    assert_eq!(guild.check_local_roles_set(), Ok(()));
    assert_eq!(
        factory.resume_guild_endpoint(&config, &mut guild, 1, 0),
        Err(GuildError::ZeroRewardAmount)
    );
    assert_eq!(guild.state, State::Inactive);

    config.set_per_block_reward_amount(Amount::from_u64(5_000)).unwrap();
    guild_sc::custom_rewards::CustomRewardsModule::update_all(&mut guild, &config);
    assert_eq!(factory.resume_guild_endpoint(&config, &mut guild, 1, 17), Ok(()));
    assert_eq!(guild.state, State::Active);
    assert!(guild.produce_rewards_enabled);
    assert_eq!(guild.last_reward_block_nonce, 17);
    assert_eq!(
        factory.resume_guild_endpoint(&config, &mut guild, 1, 18),
        Err(GuildError::AlreadyProducingRewards)
    );
    guild.pause();
    assert_eq!(guild.state, State::Inactive);
    guild.resume();
    assert_eq!(guild.state, State::Active);
}
