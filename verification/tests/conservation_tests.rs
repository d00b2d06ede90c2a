use guild_sc::amount::Amount;
use guild_sc::claim_rewards::ClaimStakeFarmRewardsModule;
use guild_sc::compound_rewards::CompoundStakeFarmRewardsModule;
use guild_sc::farm_staking::{FarmStaking, State};
use guild_sc::guild_config::{GlobalConfigModule, GuildScConfig, InitArgs, TierModule};
use guild_sc::guild_factory::{FactoryModule, GuildFactory};
use guild_sc::guild_interactions::GuildInteractionsModule;
use guild_sc::rewards::RewardsModule;
use guild_sc::stake_farm::StakeFarmModule;
use guild_sc::tier_types::{GuildMasterRewardTier, UserRewardTier, MAX_PERCENT};
use guild_sc::token_attributes::{EsdtTokenPayment, StakingFarmToken, TokenIdentifier};
use guild_sc::total_tokens::TokenPerTierModule;
use guild_sc::unbond_farm::{UnbondFarmModule, UnbondFarmToken};
use guild_sc::unstake_farm::UnstakeFarmModule;

const FARMING: TokenIdentifier = TokenIdentifier { id: 1 };
const FARM: TokenIdentifier = TokenIdentifier { id: 2 };
const UNBOND: TokenIdentifier = TokenIdentifier { id: 3 };
const FACTORY: u64 = 100;
const GUILD: u64 = 200;
const MASTER: u64 = 300;
const ALICE: u64 = 401;
const BOB: u64 = 402;

struct World {
    config: GuildScConfig,
    factory: GuildFactory,
    guild: FarmStaking,
    /// The positions in circulation, each with its owner.
    ledger: Vec<(u64, StakingFarmToken)>,
    /// The rewards that left the reserve, paid out or compounded.
    spent: u64,
}

fn u(amount: &Amount) -> u64 {
    amount.to_u64().unwrap()
}

impl World {
    fn new() -> World {
        let mut config = GuildScConfig::init(InitArgs {
            total_staking_tokens_minted: Amount::from_u64(1_000_000_000_000),
            max_staked_tokens: Amount::from_u64(1_000_000_000_000),
            user_unbond_epochs: 5,
            guild_master_unbond_epochs: 5,
            min_stake_user: Amount::zero(),
            min_stake_guild_master: Amount::zero(),
            seconds_per_block: 6,
        })
        .unwrap();
        config.set_per_block_reward_amount(Amount::from_u64(1_000_000)).unwrap();
        config
            .add_user_tiers(vec![
                UserRewardTier::new(100, 8_000, 9_000),
                UserRewardTier::new(MAX_PERCENT, 4_000, 5_000),
            ])
            .unwrap();
        config
            .add_guild_master_tiers(vec![
                GuildMasterRewardTier::new(Amount::from_u64(5_000_000_000), 9_000, 9_500),
                GuildMasterRewardTier::new(Amount::from_u64(1_000_000_000_000), 6_000, 6_500),
            ])
            .unwrap();
        let mut factory =
            GuildFactory::init(FACTORY, FARMING, Amount::from_u128(2_000_000_000_000_000_000))
                .unwrap();
        factory.config_deployed = true;
        factory.deposit_rewards_admins(FARMING, &Amount::from_u64(1_000_000_000)).unwrap();
        factory.register_guild(MASTER, GUILD).unwrap();
        let mut guild = FarmStaking::init(
            GUILD,
            FACTORY,
            FARMING,
            Amount::from_u64(1_000_000_000_000),
            &config,
            MASTER,
        )
        .unwrap();
        guild.farm_token_id = Some(FARM);
        guild.unbond_token_id = Some(UNBOND);
        guild.state = State::Active;
        guild.start_produce_rewards(0).unwrap();
        World { config, factory, guild, ledger: Vec::new(), spent: 0 }
    }

    /// What the position holds that `take` would hand out.
    fn next_amount(&self, owner: u64) -> u64 {
        let (_, position) = self.ledger.iter().find(|(who, _)| *who == owner).unwrap();
        u(&position.payment.amount)
    }

    fn take(&mut self, owner: u64) -> StakingFarmToken {
        let index = self.ledger.iter().position(|(who, _)| *who == owner).unwrap();
        self.ledger.remove(index).1
    }

    fn stake(&mut self, who: u64, amount: u64, merge: bool, nonce: u64) {
        let additional = if merge { vec![self.take(who)] } else { Vec::new() };
        let position = self
            .guild
            .stake_farm_endpoint(
                &mut self.config,
                &mut self.factory,
                who,
                None,
                &EsdtTokenPayment::new(FARMING, 0, Amount::from_u64(amount)),
                &additional,
                nonce,
            )
            .unwrap();
        self.ledger.push((who, position));
        self.check();
    }

    fn claim(&mut self, who: u64, nonce: u64) -> u64 {
        let position = self.take(who);
        let result = self
            .guild
            .claim_rewards(&self.config, &mut self.factory, who, &vec![position], nonce)
            .unwrap();
        self.ledger.push((who, result.new_farm_token));
        self.spent += u(&result.rewards.amount);
        self.check();
        u(&result.rewards.amount)
    }

    fn compound(&mut self, who: u64, nonce: u64) {
        let position = self.take(who);
        let before = u(&position.payment.amount);
        let compounded = self
            .guild
            .compound_rewards(&mut self.config, &mut self.factory, who, &vec![position], nonce)
            .unwrap();
        self.spent += u(&compounded.payment.amount) - before;
        self.ledger.push((who, compounded));
        self.check();
    }

    fn unstake(&mut self, who: u64, part: u64, nonce: u64) -> UnbondFarmToken {
        let position = self.take(who);
        let whole = u(&position.payment.amount);
        let mut handed_in = position.duplicate();
        handed_in.payment.amount = Amount::from_u64(part);
        let result = self
            .guild
            .unstake_farm(&mut self.config, &mut self.factory, who, handed_in, nonce, 0)
            .unwrap();
        if part < whole {
            // what was not handed in stays in circulation
            let mut rest = position;
            rest.payment.amount = Amount::from_u64(whole - part);
            self.ledger.push((who, rest));
        }
        self.spent += u(&result.base_rewards_payment.amount);
        self.check();
        UnbondFarmToken { payment: result.unbond.unbond_token, attributes: result.unbond.attributes }
    }

    fn cancel(&mut self, who: u64, token: UnbondFarmToken, nonce: u64) {
        let position = self
            .guild
            .cancel_unbond(&mut self.config, &mut self.factory, who, &token, nonce)
            .unwrap();
        self.ledger.push((who, position));
        self.check();
    }

    /// What the positions in circulation hold is what the guild counts as
    /// staked, in total and for each staker, and every accrued reward is in
    /// the reserve or has left it.
    fn check(&self) {
        assert!(self.guild.is_well_formed());
        let held: u64 = self.ledger.iter().map(|(_, p)| u(&p.payment.amount)).sum();
        let staked =
            u(&self.guild.total_base_staked_tokens) + u(&self.guild.total_compounded_tokens);
        assert_eq!(held, staked);
        assert_eq!(held, u(&self.guild.farm_token_supply));
        assert_eq!(held, u(&self.config.total_staking_token_staked));
        for who in [MASTER, ALICE, BOB] {
            let own: u64 = self
                .ledger
                .iter()
                .filter(|(owner, _)| *owner == who)
                .map(|(_, p)| u(&p.payment.amount))
                .sum();
            assert_eq!(own, u(&self.guild.get_total_stake_for_user(who)));
        }
        assert_eq!(
            u(&self.guild.reward_reserve) + self.spent,
            u(&self.guild.accumulated_rewards)
        );
        assert!(u(&self.guild.accumulated_rewards) <= u(&self.guild.reward_capacity));
    }
}

#[test]
fn staked_total_follows_the_positions_through_every_call() {
    let mut world = World::new();
    world.stake(MASTER, 1_000_000_000, false, 0);
    world.stake(ALICE, 3_000_000_000, false, 0);
    world.stake(BOB, 500_000_000, false, 5);
    assert!(world.claim(ALICE, 10) > 0);
    world.compound(BOB, 20);
    world.stake(ALICE, 1_234_567, true, 30);
    world.compound(MASTER, 40);
    let unbond = world.unstake(BOB, 200_000_000, 50);
    world.claim(BOB, 60);
    world.compound(ALICE, 70);
    world.cancel(BOB, unbond, 80);
    let alice = u(&world.guild.get_total_stake_for_user(ALICE));
    world.unstake(ALICE, alice, 90);
    world.claim(MASTER, 100);
    world.compound(BOB, 110);
    assert_eq!(u(&world.guild.get_total_stake_for_user(ALICE)), 0);
    assert!(u(&world.guild.total_compounded_tokens) > 0);
    assert!(u(&world.guild.guild_master_rps) > 0);
    assert!(u(&world.guild.user_rps) > 0);
}

#[test]
fn a_partial_unstake_takes_its_share_of_the_compounded_part() {
    let mut world = World::new();
    world.stake(MASTER, 1_000_000_000, false, 0);
    world.stake(ALICE, 3_000_000_000, false, 0);
    world.compound(ALICE, 1_000);
    let position = world.take(ALICE);
    let whole = u(&position.payment.amount);
    let compounded = u(&position.attributes.compounded_reward);
    assert!(compounded > 0);
    world.ledger.push((ALICE, position));
    let unbond = world.unstake(ALICE, whole / 4, 1_000);
    let carried = unbond.attributes.opt_original_attributes.unwrap();
    assert_eq!(u(&carried.current_farm_amount), whole / 4);
    assert_eq!(
        u(&carried.compounded_reward),
        ((compounded as u128) * (whole as u128 / 4) / (whole as u128)) as u64
    );
}

#[test]
fn rounding_of_the_parts_does_not_keep_a_staker_in() {
    let mut world = World::new();
    world.stake(MASTER, 1_000_000_000, false, 0);
    world.stake(ALICE, 3_000_000_001, false, 0);
    world.compound(ALICE, 1_000);
    let position = world.take(ALICE);
    let whole = u(&position.payment.amount);
    let compounded = u(&position.attributes.compounded_reward);
    world.ledger.push((ALICE, position));
    let first = whole / 3;
    // the two shares of the compounded part are rounded down, each for itself
    let first_share = (compounded as u128 * first as u128 / whole as u128) as u64;
    let second_share = (compounded as u128 * (whole - first) as u128 / whole as u128) as u64;
    assert_eq!(first_share + second_share, compounded - 1);

    world.unstake(ALICE, first, 1_000);
    world.unstake(ALICE, whole - first, 1_000);
    let account = world.guild.get_user_staked_tokens(ALICE);
    assert_eq!((u(&account.base), u(&account.compounded)), (0, 0));
    assert_eq!(u(&world.guild.total_compounded_tokens), 0);
    assert_eq!(u(&world.guild.total_base_staked_tokens), 1_000_000_000);
}

/// A small generator of numbers that gives the same run every time.
struct Dice(u64);

impl Dice {
    fn roll(&mut self, sides: u64) -> u64 {
        self.0 = self.0.wrapping_mul(6364136223846793005).wrapping_add(1442695040888963407);
        (self.0 >> 33) % sides
    }
}

#[test]
fn no_sequence_of_calls_on_real_positions_is_rejected() {
    for seed in 1..=6u64 {
        let mut dice = Dice(seed);
        let mut world = World::new();
        let mut unbonding: Vec<(u64, UnbondFarmToken)> = Vec::new();
        let mut nonce = 0;
        world.stake(MASTER, 1 + dice.roll(1_000_000_000), false, nonce);
        for _ in 0..120 {
            nonce += dice.roll(50);
            let who = [MASTER, ALICE, BOB][dice.roll(3) as usize];
            let has_position = world.ledger.iter().any(|(owner, _)| *owner == who);
            match dice.roll(6) {
                0 => world.stake(who, 1 + dice.roll(2_000_000_000), false, nonce),
                1 if has_position => world.stake(who, dice.roll(2_000_000_000), true, nonce),
                2 if has_position => {
                    world.claim(who, nonce);
                }
                3 if has_position => world.compound(who, nonce),
                // the guild master stays in: it leaves by closing the guild
                4 if has_position && who != MASTER => {
                    let whole = world.next_amount(who);
                    let part = if dice.roll(3) == 0 { whole } else { 1 + dice.roll(whole) };
                    let token = world.unstake(who, part, nonce);
                    unbonding.push((who, token));
                }
                5 if !unbonding.is_empty() => {
                    let (owner, token) = unbonding.remove(dice.roll(unbonding.len() as u64) as usize);
                    if dice.roll(2) == 0 {
                        world.cancel(owner, token, nonce);
                    } else {
                        let amount = u(&token.payment.amount);
                        let paid = world.guild.unbond_farm(&vec![token], 1_000).unwrap();
                        assert_eq!(u(&paid.amount), amount);
                    }
                }
                _ => {}
            }
        }
        // in the end every user leaves, part by part
        for who in [ALICE, BOB] {
            while world.ledger.iter().any(|(owner, _)| *owner == who) {
                let whole = world.next_amount(who);
                let part = if whole > 3 { whole / 3 } else { whole };
                world.unstake(who, part, nonce);
            }
            let account = world.guild.get_user_staked_tokens(who);
            assert_eq!((u(&account.base), u(&account.compounded)), (0, 0));
        }
        let master = world.guild.get_user_staked_tokens(MASTER);
        assert_eq!(u(&world.guild.total_base_staked_tokens), u(&master.base));
        assert_eq!(u(&world.guild.total_compounded_tokens), u(&master.compounded));
        assert_eq!(u(&world.guild.farm_token_supply), u(&master.total()));
    }
}
