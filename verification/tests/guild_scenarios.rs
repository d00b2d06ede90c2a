use guild_sc::amount::Amount;
use guild_sc::claim_rewards::ClaimStakeFarmRewardsModule;
use guild_sc::compound_rewards::CompoundStakeFarmRewardsModule;
use guild_sc::errors::GuildError;
use guild_sc::farm_staking::{FarmStaking, State};
use guild_sc::guild_config::{GlobalConfigModule, GuildScConfig, InitArgs, TierModule};
use guild_sc::guild_factory::{FactoryModule, GuildFactory};
use guild_sc::guild_interactions::GuildInteractionsModule;
use guild_sc::migration::MigrationModule;
use guild_sc::rewards::RewardsModule;
use guild_sc::stake_farm::StakeFarmModule;
use guild_sc::tier_types::{GuildMasterRewardTier, UserRewardTier, MAX_PERCENT};
use guild_sc::token_attributes::{EsdtTokenPayment, StakingFarmToken, TokenIdentifier};
use guild_sc::total_tokens::TokenPerTierModule;
use guild_sc::unbond_farm::{UnbondFarmModule, UnbondFarmToken};
use guild_sc::unstake_farm::{UnstakeFarmModule, UnstakeResult};

const FARMING_TOKEN_ID: TokenIdentifier = TokenIdentifier { id: 1 };
const FARM_TOKEN_ID: TokenIdentifier = TokenIdentifier { id: 2 };
const OTHER_FARM_TOKEN_ID: TokenIdentifier = TokenIdentifier { id: 3 };
const UNBOND_TOKEN_ID: TokenIdentifier = TokenIdentifier { id: 4 };
const OTHER_UNBOND_TOKEN_ID: TokenIdentifier = TokenIdentifier { id: 5 };

const FACTORY: u64 = 100;
const FIRST_GUILD: u64 = 201;
const SECOND_GUILD: u64 = 202;
const FIRST_OWNER: u64 = 301;
const SECOND_OWNER: u64 = 302;
const USER: u64 = 401;

const DIVISION_SAFETY_CONSTANT: u64 = 1_000_000_000_000;
const MIN_UNBOND_EPOCHS: u64 = 5;
const MAX_APR: u64 = 2_500; // 25%
const PER_BLOCK_REWARD_AMOUNT: u64 = 5_000;
const TOTAL_REWARDS_AMOUNT: u64 = 1_000_000_000_000;
const TOTAL_STAKING_TOKENS_MINTED: u64 = 1_000_000_000_000_000_000;
const BLOCKS_IN_YEAR: u64 = 31_536_000 / 6; // seconds_in_year / 6_seconds_per_block

struct FarmStakingSetup {
    config: GuildScConfig,
    factory: GuildFactory,
    first_farm: FarmStaking,
    second_farm: FarmStaking,
}

fn farming(amount: u64) -> EsdtTokenPayment {
    EsdtTokenPayment::new(FARMING_TOKEN_ID, 0, Amount::from_u64(amount))
}

fn u(amount: &Amount) -> u64 {
    amount.to_u64().unwrap()
}

fn new_guild(
    config: &GuildScConfig,
    address: u64,
    master: u64,
    farm_token: TokenIdentifier,
    unbond_token: TokenIdentifier,
) -> FarmStaking {
    let mut guild = FarmStaking::init(
        address,
        FACTORY,
        FARMING_TOKEN_ID,
        Amount::from_u64(DIVISION_SAFETY_CONSTANT),
        config,
        master,
    )
    .unwrap();
    guild.farm_token_id = Some(farm_token);
    guild.unbond_token_id = Some(unbond_token);
    guild.farm_token_transfer_role_set = true;
    guild.unbond_token_transfer_role_set = true;
    guild
}

impl FarmStakingSetup {
    fn new() -> Self {
        let mut config = GuildScConfig::init(InitArgs {
            total_staking_tokens_minted: Amount::from_u64(TOTAL_STAKING_TOKENS_MINTED),
            max_staked_tokens: Amount::from_u64(i64::MAX as u64),
            user_unbond_epochs: MIN_UNBOND_EPOCHS,
            guild_master_unbond_epochs: MIN_UNBOND_EPOCHS,
            min_stake_user: Amount::zero(),
            min_stake_guild_master: Amount::zero(),
            seconds_per_block: 6,
        })
        .unwrap();
        config
            .set_per_block_reward_amount(Amount::from_u64(PER_BLOCK_REWARD_AMOUNT))
            .unwrap();
        config
            .add_user_tiers(vec![UserRewardTier::new(MAX_PERCENT, MAX_APR, MAX_APR)])
            .unwrap();
        config
            .add_guild_master_tiers(vec![GuildMasterRewardTier::new(
                Amount::from_u64(i64::MAX as u64),
                MAX_APR,
                MAX_APR,
            )])
            .unwrap();

        let mut factory = GuildFactory::init(
            FACTORY,
            FARMING_TOKEN_ID,
            Amount::from_u128(2_000_000_000_000_000_000),
        )
        .unwrap();
        factory.config_deployed = true;
        factory
            .deposit_rewards_admins(FARMING_TOKEN_ID, &Amount::from_u64(TOTAL_REWARDS_AMOUNT))
            .unwrap();

        factory.register_guild(FIRST_OWNER, FIRST_GUILD).unwrap();
        factory.register_guild(SECOND_OWNER, SECOND_GUILD).unwrap();
        let mut first_farm =
            new_guild(&config, FIRST_GUILD, FIRST_OWNER, FARM_TOKEN_ID, UNBOND_TOKEN_ID);
        let mut second_farm = new_guild(
            &config,
            SECOND_GUILD,
            SECOND_OWNER,
            OTHER_FARM_TOKEN_ID,
            OTHER_UNBOND_TOKEN_ID,
        );
        factory
            .resume_guild_endpoint(&config, &mut first_farm, FIRST_OWNER, 0)
            .unwrap();
        factory
            .resume_guild_endpoint(&config, &mut second_farm, SECOND_OWNER, 0)
            .unwrap();

        let mut setup = FarmStakingSetup { config, factory, first_farm, second_farm };
        setup
            .first_farm
            .stake_farm_endpoint(
                &mut setup.config,
                &mut setup.factory,
                FIRST_OWNER,
                None,
                &farming(1),
                &Vec::new(),
                0,
            )
            .unwrap();
        setup
            .second_farm
            .stake_farm_endpoint(
                &mut setup.config,
                &mut setup.factory,
                SECOND_OWNER,
                None,
                &farming(1),
                &Vec::new(),
                0,
            )
            .unwrap();
        setup
    }

    fn stake_farm(
        &mut self,
        farm_in_amount: u64,
        additional_farm_tokens: Vec<StakingFarmToken>,
        block_nonce: u64,
        expected_reward_per_share: u64,
        expected_compounded_reward: u64,
    ) -> StakingFarmToken {
        let mut expected_total_out_amount = farm_in_amount;
        for token in additional_farm_tokens.iter() {
            expected_total_out_amount += u(&token.payment.amount);
        }
        let new_farm_token = self
            .first_farm
            .stake_farm_endpoint(
                &mut self.config,
                &mut self.factory,
                USER,
                None,
                &farming(farm_in_amount),
                &additional_farm_tokens,
                block_nonce,
            )
            .unwrap();
        assert_eq!(new_farm_token.payment.token_identifier, FARM_TOKEN_ID);
        assert_eq!(u(&new_farm_token.payment.amount), expected_total_out_amount);
        assert_eq!(
            u(&new_farm_token.attributes.reward_per_share),
            expected_reward_per_share
        );
        assert_eq!(
            u(&new_farm_token.attributes.compounded_reward),
            expected_compounded_reward
        );
        assert_eq!(
            u(&new_farm_token.attributes.current_farm_amount),
            expected_total_out_amount
        );
        new_farm_token
    }

    fn claim_rewards(
        &mut self,
        farm_token: StakingFarmToken,
        block_nonce: u64,
        expected_reward_token_out: u64,
        expected_reward_per_share: u64,
    ) -> StakingFarmToken {
        let farm_token_amount = u(&farm_token.payment.amount);
        let result = self
            .first_farm
            .claim_rewards(&self.config, &mut self.factory, USER, &vec![farm_token], block_nonce)
            .unwrap();
        assert_eq!(result.new_farm_token.payment.token_identifier, FARM_TOKEN_ID);
        assert_eq!(u(&result.new_farm_token.payment.amount), farm_token_amount);
        assert_eq!(result.rewards.token_identifier, FARMING_TOKEN_ID);
        assert_eq!(result.rewards.token_nonce, 0);
        assert_eq!(u(&result.rewards.amount), expected_reward_token_out);
        assert_eq!(
            u(&result.new_farm_token.attributes.reward_per_share),
            expected_reward_per_share
        );
        assert_eq!(u(&result.new_farm_token.attributes.compounded_reward), 0);
        assert_eq!(
            u(&result.new_farm_token.attributes.current_farm_amount),
            farm_token_amount
        );
        result.new_farm_token
    }

    fn unstake_farm(
        &mut self,
        farm_token: StakingFarmToken,
        block_nonce: u64,
        block_epoch: u64,
        expected_rewards_out: u64,
        expected_unbond_token_amount: u64,
    ) -> UnstakeResult {
        let result = self
            .first_farm
            .unstake_farm(
                &mut self.config,
                &mut self.factory,
                USER,
                farm_token,
                block_nonce,
                block_epoch,
            )
            .unwrap();
        assert_eq!(result.unbond.unbond_token.token_identifier, UNBOND_TOKEN_ID);
        assert_eq!(
            u(&result.unbond.unbond_token.amount),
            expected_unbond_token_amount
        );
        assert_eq!(result.base_rewards_payment.token_identifier, FARMING_TOKEN_ID);
        assert_eq!(result.base_rewards_payment.token_nonce, 0);
        assert_eq!(u(&result.base_rewards_payment.amount), expected_rewards_out);
        assert_eq!(
            result.unbond.attributes.unlock_epoch,
            block_epoch + MIN_UNBOND_EPOCHS
        );
        result
    }

    fn check_farm_token_supply(&self, expected_farm_token_supply: u64) {
        assert_eq!(u(&self.first_farm.farm_token_supply), expected_farm_token_supply);
        assert!(self.first_farm.is_well_formed());
    }
}

fn part_of(token: &StakingFarmToken, amount: u64) -> StakingFarmToken {
    let mut part = token.duplicate();
    part.payment.amount = Amount::from_u64(amount);
    part
}

#[test]
fn all_setup_test() {
    let setup = FarmStakingSetup::new();
    assert!(setup.first_farm.is_well_formed());
    assert!(setup.second_farm.is_well_formed());
    assert_eq!(setup.first_farm.state, State::Active);
    assert!(setup.first_farm.produces_per_block_rewards());
    assert_eq!(u(&setup.first_farm.farm_token_supply), 1);
    assert_eq!(u(&setup.config.total_staking_token_staked), 2);
    assert_eq!(setup.factory.get_all_guilds().len(), 2);
}

#[test]
fn close_guild_test() {
    let mut setup = FarmStakingSetup::new();

    // user stake into first farm
    let farm_in_amount = 50_000_000;
    let user_position = setup.stake_farm(farm_in_amount, Vec::new(), 0, 0, 0);
    assert_eq!(u(&user_position.payment.amount), farm_in_amount);

    // close guild
    let master_position = StakingFarmToken {
        payment: EsdtTokenPayment::new(FARM_TOKEN_ID, 1, Amount::from_u64(1)),
        attributes: guild_sc::token_attributes::StakingFarmTokenAttributes {
            reward_per_share: Amount::zero(),
            compounded_reward: Amount::zero(),
            current_farm_amount: Amount::from_u64(1),
        },
    };
    setup
        .first_farm
        .close_guild(
            &mut setup.config,
            &mut setup.factory,
            FIRST_OWNER,
            &vec![master_position],
            0,
            0,
        )
        .unwrap();
    assert!(setup.first_farm.guild_closing);

    // user try stake again
    let result = setup.first_farm.stake_farm_endpoint(
        &mut setup.config,
        &mut setup.factory,
        USER,
        None,
        &farming(farm_in_amount),
        &Vec::new(),
        0,
    );
    let error = result.err().unwrap();
    assert_eq!(error, GuildError::GuildClosing);
    assert_eq!(error.message(), "Guild closing");
}

fn master_position(amount: u64) -> StakingFarmToken {
    StakingFarmToken {
        payment: EsdtTokenPayment::new(FARM_TOKEN_ID, 1, Amount::from_u64(amount)),
        attributes: guild_sc::token_attributes::StakingFarmTokenAttributes {
            reward_per_share: Amount::zero(),
            compounded_reward: Amount::zero(),
            current_farm_amount: Amount::from_u64(amount),
        },
    }
}

#[test]
fn migrate_to_other_guild_test() {
    let mut setup = FarmStakingSetup::new();

    // user stake into first farm
    let farm_in_amount = 100_000_000;
    let user_position = setup.stake_farm(farm_in_amount, Vec::new(), 0, 0, 0);

    // close guild
    setup
        .first_farm
        .close_guild(
            &mut setup.config,
            &mut setup.factory,
            FIRST_OWNER,
            &vec![master_position(1)],
            0,
            0,
        )
        .unwrap();

    // user migrate to another guild
    let migrated = setup
        .first_farm
        .migrate_to_other_guild(
            &mut setup.config,
            &mut setup.factory,
            USER,
            &vec![user_position],
            SECOND_GUILD,
            0,
        )
        .unwrap();
    assert_eq!(migrated.guild_address, SECOND_GUILD);
    assert_eq!(u(&migrated.total_farming_tokens), farm_in_amount);
    assert_eq!(u(&setup.first_farm.farm_token_supply), 0);

    let new_position = setup
        .factory
        .migrate_to_other_guild(
            &mut setup.config,
            FIRST_GUILD,
            &mut setup.second_farm,
            USER,
            &EsdtTokenPayment::new(FARMING_TOKEN_ID, 0, migrated.total_farming_tokens),
            0,
        )
        .unwrap();
    assert_eq!(new_position.payment.token_identifier, OTHER_FARM_TOKEN_ID);
    assert_eq!(u(&new_position.payment.amount), farm_in_amount);

    // check requesting rewards works
    let expected_reward_token_out = 40;
    let result = setup
        .second_farm
        .claim_rewards(&setup.config, &mut setup.factory, USER, &vec![new_position], 10)
        .unwrap();
    assert_eq!(u(&result.rewards.amount), expected_reward_token_out);
}

#[test]
fn test_enter_farm() {
    let mut farm_setup = FarmStakingSetup::new();

    let farm_in_amount = 100_000_000;
    farm_setup.stake_farm(farm_in_amount, Vec::new(), 0, 0, 0);
    farm_setup.check_farm_token_supply(farm_in_amount + 1);
}

#[test]
fn test_unstake_farm() {
    let mut farm_setup = FarmStakingSetup::new();

    let farm_in_amount = 100_000_000;
    let position = farm_setup.stake_farm(farm_in_amount, Vec::new(), 0, 0, 0);
    farm_setup.check_farm_token_supply(farm_in_amount + 1);

    let current_block = 10;
    let current_epoch = 5;

    let block_diff = current_block;
    let expected_rewards_unbounded = block_diff * PER_BLOCK_REWARD_AMOUNT;

    // 4 a block, for 10 blocks
    let expected_rewards_max_apr =
        farm_in_amount * MAX_APR / MAX_PERCENT / BLOCKS_IN_YEAR * block_diff;
    let expected_rewards = core::cmp::min(expected_rewards_unbounded, expected_rewards_max_apr);
    assert_eq!(expected_rewards, 40);

    farm_setup.unstake_farm(
        position,
        current_block,
        current_epoch,
        expected_rewards,
        farm_in_amount,
    );
    farm_setup.check_farm_token_supply(1);
}

#[test]
fn test_claim_rewards() {
    let mut farm_setup = FarmStakingSetup::new();

    let farm_in_amount = 100_000_000;
    let position = farm_setup.stake_farm(farm_in_amount, Vec::new(), 0, 0, 0);
    farm_setup.check_farm_token_supply(farm_in_amount + 1);

    // value taken from the "test_unstake_farm" test
    let expected_reward_token_out = 40;
    let expected_reward_per_share = 400_000;
    farm_setup.claim_rewards(position, 10, expected_reward_token_out, expected_reward_per_share);
    farm_setup.check_farm_token_supply(farm_in_amount + 1);
}

#[test]
fn compound_rewards_test() {
    let mut farm_setup = FarmStakingSetup::new();

    let farm_in_amount = 100_000_000;
    let position = farm_setup.stake_farm(farm_in_amount, Vec::new(), 0, 0, 0);
    farm_setup.check_farm_token_supply(farm_in_amount + 1);

    // value taken from the "test_unstake_farm" test
    let expected_reward_token_out = 40;
    let expected_reward_per_share = 400_000;

    let compounded = farm_setup
        .first_farm
        .compound_rewards(
            &mut farm_setup.config,
            &mut farm_setup.factory,
            USER,
            &vec![position],
            10,
        )
        .unwrap();
    assert_eq!(
        u(&compounded.attributes.reward_per_share),
        expected_reward_per_share
    );
    assert_eq!(
        u(&compounded.attributes.compounded_reward),
        expected_reward_token_out
    );
    assert_eq!(
        u(&compounded.attributes.current_farm_amount),
        farm_in_amount + expected_reward_token_out
    );
    assert_eq!(
        u(&compounded.payment.amount),
        farm_in_amount + expected_reward_token_out
    );

    farm_setup.check_farm_token_supply(farm_in_amount + expected_reward_token_out + 1);

    // try unstake full amount
    farm_setup
        .first_farm
        .unstake_farm(
            &mut farm_setup.config,
            &mut farm_setup.factory,
            USER,
            compounded,
            10,
            5,
        )
        .unwrap();
    farm_setup.check_farm_token_supply(1);
}

#[test]
fn compound_rewards_guild_master_test() {
    let mut farm_setup = FarmStakingSetup::new();

    let farm_in_amount = 100_000_000;
    let position = farm_setup
        .first_farm
        .stake_farm_endpoint(
            &mut farm_setup.config,
            &mut farm_setup.factory,
            FIRST_OWNER,
            None,
            &farming(farm_in_amount),
            &Vec::new(),
            0,
        )
        .unwrap();

    farm_setup.check_farm_token_supply(farm_in_amount + 1);

    // value taken from the "test_unstake_farm" test
    let expected_reward_token_out = 39;
    let expected_reward_per_share = 399_999;

    let compounded = farm_setup
        .first_farm
        .compound_rewards(
            &mut farm_setup.config,
            &mut farm_setup.factory,
            FIRST_OWNER,
            &vec![position],
            10,
        )
        .unwrap();
    assert_eq!(
        u(&compounded.attributes.reward_per_share),
        expected_reward_per_share
    );
    assert_eq!(
        u(&compounded.attributes.compounded_reward),
        expected_reward_token_out
    );
    assert_eq!(
        u(&compounded.attributes.current_farm_amount),
        farm_in_amount + expected_reward_token_out
    );

    farm_setup.check_farm_token_supply(farm_in_amount + expected_reward_token_out + 1);
}

#[test]
fn claim_rewards_multi_test() {
    let mut farm_setup = FarmStakingSetup::new();

    let farm_in_amount = 100_000_000;
    let first = farm_setup.stake_farm(farm_in_amount, Vec::new(), 0, 0, 0);
    let second = farm_setup.stake_farm(farm_in_amount, Vec::new(), 0, 0, 0);
    farm_setup.check_farm_token_supply(farm_in_amount + farm_in_amount + 1);

    // 200,000,000 staked by users earn 9 a block: 90 in ten blocks, 45 for each position
    let expected_reward_token_out = 45;

    let result = farm_setup
        .first_farm
        .claim_rewards(
            &farm_setup.config,
            &mut farm_setup.factory,
            USER,
            &vec![first, second],
            10,
        )
        .unwrap();
    assert_eq!(u(&result.rewards.amount), expected_reward_token_out * 2);
    assert_eq!(
        u(&result.new_farm_token.payment.amount),
        farm_in_amount + farm_in_amount
    );
    assert_eq!(
        u(&result.new_farm_token.attributes.current_farm_amount),
        farm_in_amount + farm_in_amount
    );

    farm_setup.check_farm_token_supply(farm_in_amount + farm_in_amount + 1);
}

fn steps_enter_farm_twice() -> (FarmStakingSetup, StakingFarmToken) {
    let mut farm_setup = FarmStakingSetup::new();

    let farm_in_amount = 100_000_000;
    let first = farm_setup.stake_farm(farm_in_amount, Vec::new(), 0, 0, 0);
    farm_setup.check_farm_token_supply(farm_in_amount + 1);

    let second_farm_in_amount = 200_000_000;
    let total_amount = farm_in_amount + second_farm_in_amount;
    let first_reward_share = 0;
    let second_reward_share = 400_000;
    let expected_reward_per_share = (first_reward_share * farm_in_amount
        + second_reward_share * second_farm_in_amount
        + total_amount
        - 1)
        / total_amount;

    let merged = farm_setup.stake_farm(
        second_farm_in_amount,
        vec![first],
        10,
        expected_reward_per_share,
        0,
    );
    farm_setup.check_farm_token_supply(total_amount + 1);

    (farm_setup, merged)
}

#[test]
fn test_enter_farm_twice() {
    let _ = steps_enter_farm_twice();
}

#[test]
fn test_exit_farm_after_enter_twice() {
    let (mut farm_setup, merged) = steps_enter_farm_twice();
    let farm_in_amount = 100_000_000;
    let second_farm_in_amount = 200_000_000;

    let expected_rewards = 83;
    farm_setup.unstake_farm(
        part_of(&merged, farm_in_amount),
        25,
        8,
        expected_rewards,
        farm_in_amount,
    );
    farm_setup.check_farm_token_supply(second_farm_in_amount + 1);
}

#[test]
fn test_unbond() {
    let mut farm_setup = FarmStakingSetup::new();

    let farm_in_amount = 100_000_000;
    let position = farm_setup.stake_farm(farm_in_amount, Vec::new(), 0, 0, 0);
    farm_setup.check_farm_token_supply(farm_in_amount + 1);

    let current_block = 10;
    let current_epoch = 5;
    let expected_rewards = 40;

    let unstaked = farm_setup.unstake_farm(
        position,
        current_block,
        current_epoch,
        expected_rewards,
        farm_in_amount,
    );
    farm_setup.check_farm_token_supply(1);

    let unbond_token = UnbondFarmToken {
        payment: unstaked.unbond.unbond_token,
        attributes: unstaked.unbond.attributes,
    };
    let too_early = farm_setup
        .first_farm
        .unbond_farm(&vec![UnbondFarmToken {
            payment: unbond_token.payment.duplicate(),
            attributes: unbond_token.attributes.duplicate(),
        }], current_epoch + MIN_UNBOND_EPOCHS - 1);
    assert_eq!(too_early.err(), Some(GuildError::UnbondPeriodNotOver));

    let payment = farm_setup
        .first_farm
        .unbond_farm(&vec![unbond_token], current_epoch + MIN_UNBOND_EPOCHS)
        .unwrap();
    assert_eq!(payment.token_identifier, FARMING_TOKEN_ID);
    assert_eq!(payment.token_nonce, 0);
    assert_eq!(u(&payment.amount), farm_in_amount);
}

#[test]
fn cancel_unbond_test() {
    let mut farm_setup = FarmStakingSetup::new();

    let farm_in_amount = 100_000_000;
    let position = farm_setup.stake_farm(farm_in_amount, Vec::new(), 0, 0, 0);
    farm_setup.check_farm_token_supply(farm_in_amount + 1);

    let current_block = 10;
    let current_epoch = 5;
    let expected_rewards = 40;

    let unstaked = farm_setup.unstake_farm(
        position,
        current_block,
        current_epoch,
        expected_rewards,
        farm_in_amount,
    );
    farm_setup.check_farm_token_supply(1);
    assert_eq!(u(&farm_setup.first_farm.get_total_stake_for_user(USER)), 0);

    let unbond_token = UnbondFarmToken {
        payment: unstaked.unbond.unbond_token,
        attributes: unstaked.unbond.attributes,
    };
    let original_farm_token = farm_setup
        .first_farm
        .cancel_unbond(
            &mut farm_setup.config,
            &mut farm_setup.factory,
            USER,
            &unbond_token,
            current_block,
        )
        .unwrap();
    assert_eq!(original_farm_token.payment.token_identifier, FARM_TOKEN_ID);
    assert_eq!(u(&original_farm_token.payment.amount), farm_in_amount);
    assert_eq!(
        u(&original_farm_token.attributes.reward_per_share),
        400_000
    );
    farm_setup.check_farm_token_supply(farm_in_amount + 1);
    assert_eq!(
        u(&farm_setup.first_farm.get_total_stake_for_user(USER)),
        farm_in_amount
    );
}

#[test]
fn close_guild_test_2() {
    let mut farm_setup = FarmStakingSetup::new();

    let farm_in_amount = 100_000_000;
    farm_setup.stake_farm(farm_in_amount, Vec::new(), 0, 0, 0);
    farm_setup.check_farm_token_supply(farm_in_amount + 1);

    let current_block = 10;
    let current_epoch = 5;

    let closed = farm_setup
        .first_farm
        .close_guild(
            &mut farm_setup.config,
            &mut farm_setup.factory,
            FIRST_OWNER,
            &vec![master_position(1)],
            current_block,
            current_epoch,
        )
        .unwrap();
    // the guild asked for 40 and was granted ten times as much, accrued 40, and
    // hands the other 360 back
    assert_eq!(u(&closed.returned_rewards), 360);
    assert_eq!(u(&closed.base_rewards_payment.amount), 0);
    assert_eq!(u(&closed.unbond.unbond_token.amount), 1);
    assert_eq!(closed.unbond.attributes.unlock_epoch, current_epoch + MIN_UNBOND_EPOCHS);
    assert!(closed.unbond.attributes.opt_original_attributes.is_none());
    assert!(farm_setup.first_farm.guild_closing);
    assert!(!farm_setup.first_farm.produce_rewards_enabled);
    assert_eq!(
        u(&farm_setup.first_farm.reward_capacity),
        u(&farm_setup.first_farm.accumulated_rewards)
    );
    assert_eq!(u(&farm_setup.factory.remaining_rewards), TOTAL_REWARDS_AMOUNT - 40);
    assert!(farm_setup.factory.is_closed_guild(FIRST_GUILD));
    assert!(!farm_setup.factory.is_deployed_guild(FIRST_GUILD));
    farm_setup.check_farm_token_supply(farm_in_amount);
}

#[test]
fn ten_blocks_of_rewards_for_a_position_beside_the_bootstrap_unit() {
    // The guild master stakes 100,000,000 beside the first unit, so that the
    // pool holds 100,000,001: the flat reward for ten blocks is 50,000, the
    // tier allows 4 a block, and the 40 that are emitted are spread over the
    // whole pool. The position's share is rounded down to 39.
    let mut farm_setup = FarmStakingSetup::new();
    let farm_in_amount = 100_000_000;
    let position = farm_setup
        .first_farm
        .stake_farm_endpoint(
            &mut farm_setup.config,
            &mut farm_setup.factory,
            FIRST_OWNER,
            None,
            &farming(farm_in_amount),
            &Vec::new(),
            0,
        )
        .unwrap();
    farm_setup.check_farm_token_supply(farm_in_amount + 1);

    let block_diff = 10;
    let expected_rewards_unbounded = block_diff * PER_BLOCK_REWARD_AMOUNT;
    assert_eq!(expected_rewards_unbounded, 50_000);
    let expected_rewards_max_apr =
        farm_in_amount * MAX_APR / MAX_PERCENT / BLOCKS_IN_YEAR * block_diff - 1;
    let expected_rewards = core::cmp::min(expected_rewards_unbounded, expected_rewards_max_apr);
    assert_eq!(expected_rewards, 39);

    let claimed = farm_setup
        .first_farm
        .claim_rewards(
            &farm_setup.config,
            &mut farm_setup.factory,
            FIRST_OWNER,
            &vec![position],
            block_diff,
        )
        .unwrap();
    assert_eq!(u(&claimed.rewards.amount), expected_rewards);
    assert_eq!(u(&claimed.new_farm_token.attributes.reward_per_share), 399_999);
    farm_setup.check_farm_token_supply(farm_in_amount + 1);

    let unstaked = farm_setup
        .first_farm
        .unstake_farm(
            &mut farm_setup.config,
            &mut farm_setup.factory,
            FIRST_OWNER,
            claimed.new_farm_token,
            block_diff,
            5,
        )
        .unwrap();
    assert_eq!(u(&unstaked.base_rewards_payment.amount), 0);
    assert_eq!(u(&unstaked.unbond.unbond_token.amount), farm_in_amount);
    farm_setup.check_farm_token_supply(1);
}
