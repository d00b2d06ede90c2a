use guild_sc::amount::Amount;
use guild_sc::math::weighted_average_round_up;
use guild_sc::token_attributes::{
    EsdtTokenPayment, FixedSupplyToken, LocalFarmToken, Mergeable, StakingFarmToken,
    StakingFarmTokenAttributes, TokenIdentifier, UnbondSftAttributes,
};
use guild_sc::tokens_per_tier::TokensPerTier;

fn position(reward_per_share: u64, compounded: u64, amount: u64) -> StakingFarmTokenAttributes {
    StakingFarmTokenAttributes {
        reward_per_share: Amount::from_u64(reward_per_share),
        compounded_reward: Amount::from_u64(compounded),
        current_farm_amount: Amount::from_u64(amount),
    }
}

fn values(attributes: &StakingFarmTokenAttributes) -> (u64, u64, u64) {
    (
        attributes.reward_per_share.to_u64().unwrap(),
        attributes.compounded_reward.to_u64().unwrap(),
        attributes.current_farm_amount.to_u64().unwrap(),
    )
}

#[test]
fn weighted_average_rounds_up() {
    let average = weighted_average_round_up(
        &Amount::from_u64(0),
        &Amount::from_u64(100_000_000),
        &Amount::from_u64(400_000),
        &Amount::from_u64(200_000_000),
    );
    assert_eq!(average.to_u64(), Some(266_667));
    let exact = weighted_average_round_up(
        &Amount::from_u64(10),
        &Amount::from_u64(1),
        &Amount::from_u64(20),
        &Amount::from_u64(1),
    );
    assert_eq!(exact.to_u64(), Some(15));
    let one_sided = weighted_average_round_up(
        &Amount::from_u64(10),
        &Amount::from_u64(0),
        &Amount::from_u64(20),
        &Amount::from_u64(3),
    );
    assert_eq!(one_sided.to_u64(), Some(20));
}

#[test]
fn local_farm_token_getters() {
    let mut attributes = position(5, 30, 100);
    assert_eq!(attributes.get_reward_per_share().to_u64(), Some(5));
    assert_eq!(attributes.get_compounded_rewards().to_u64(), Some(30));
    assert_eq!(attributes.get_initial_farming_tokens().to_u64(), Some(70));
    attributes.set_reward_per_share(Amount::from_u64(9));
    assert_eq!(values(&attributes), (9, 30, 100));
}

#[test]
fn rule_of_three_scales_by_supply() {
    let attributes = position(5, 30, 100);
    let scaled = attributes.rule_of_three(&Amount::from_u64(25), &Amount::from_u64(30));
    assert_eq!(scaled.to_u64(), Some(7));
    let whole = attributes.rule_of_three(&Amount::from_u64(100), &Amount::from_u64(30));
    assert_eq!(whole.to_u64(), Some(30));
}

#[test]
fn into_part_of_the_whole_is_the_whole() {
    let attributes = position(5, 30, 100);
    assert_eq!(attributes.get_total_supply().to_u64(), Some(100));
    let part = attributes.into_part(&Amount::from_u64(100));
    assert_eq!(values(&part), (5, 30, 100));
}

#[test]
fn into_part_prorates_the_compounded_part() {
    let part = position(5, 30, 100).into_part(&Amount::from_u64(25));
    assert_eq!(values(&part), (5, 7, 25));
    let nothing = position(5, 30, 100).into_part(&Amount::zero());
    assert_eq!(values(&nothing), (5, 0, 0));
}

#[test]
fn merge_adds_amounts_and_averages_checkpoints() {
    let mut first = position(0, 10, 100_000_000);
    let second = position(400_000, 5, 200_000_000);
    first.merge_with(second);
    assert_eq!(values(&first), (266_667, 15, 300_000_000));
}

#[test]
fn merge_order_changes_the_checkpoint_by_one_at_most() {
    let a = || position(1, 0, 1);
    let b = || position(2, 0, 1);
    let c = || position(4, 0, 1);

    let mut ab_c = a();
    ab_c.merge_with(b());
    ab_c.merge_with(c());

    let mut bc_a = b();
    bc_a.merge_with(c());
    bc_a.merge_with(a());

    // (1 + 2 + 4) / 3 rounded up is 3; each order gives that or one more
    assert_eq!(values(&ab_c), (3, 0, 3));
    assert_eq!(values(&bc_a), (3, 0, 3));

    let x = || position(0, 0, 1);
    let y = || position(1, 0, 1);
    let z = || position(0, 0, 2);
    let mut xy_z = x();
    xy_z.merge_with(y());
    xy_z.merge_with(z());
    let mut yz_x = y();
    yz_x.merge_with(z());
    yz_x.merge_with(x());
    // the exact average is 1/4, rounded up 1
    assert_eq!(values(&xy_z), (1, 0, 4));
    assert_eq!(values(&yz_x), (1, 0, 4));
    let (first, _, _) = values(&xy_z);
    let (second, _, _) = values(&yz_x);
    assert!(first.abs_diff(second) <= 1);
}

#[test]
fn staking_farm_token_well_formedness() {
    let token = |payment: u64, compounded: u64, amount: u64| StakingFarmToken {
        payment: EsdtTokenPayment::new(TokenIdentifier { id: 2 }, 7, Amount::from_u64(payment)),
        attributes: position(0, compounded, amount),
    };
    assert!(token(100, 30, 100).is_well_formed());
    assert!(token(1, 30, 100).is_well_formed());
    assert!(!token(0, 30, 100).is_well_formed());
    assert!(!token(101, 30, 100).is_well_formed());
    assert!(!token(100, 101, 100).is_well_formed());
    let copy = token(40, 30, 100).duplicate();
    assert_eq!(copy.payment.token_nonce, 7);
    assert_eq!(copy.payment.amount.to_u64(), Some(40));
    assert_eq!(values(&copy.attributes), (0, 30, 100));
}

#[test]
fn unbond_attributes_into_part() {
    let unbond = UnbondSftAttributes {
        unlock_epoch: 10,
        supply: Amount::from_u64(100),
        opt_original_attributes: Some(position(5, 30, 100)),
    };
    assert!(unbond.is_well_formed());
    assert_eq!(unbond.get_total_supply().to_u64(), Some(100));
    let part = unbond.into_part(&Amount::from_u64(25));
    assert_eq!(part.unlock_epoch, 10);
    assert_eq!(part.supply.to_u64(), Some(25));
    assert_eq!(values(&part.opt_original_attributes.unwrap()), (5, 7, 25));

    let bare = UnbondSftAttributes {
        unlock_epoch: 10,
        supply: Amount::from_u64(100),
        opt_original_attributes: None,
    };
    let part = bare.into_part(&Amount::from_u64(25));
    assert_eq!(part.supply.to_u64(), Some(25));
    assert!(part.opt_original_attributes.is_none());

    let inconsistent = UnbondSftAttributes {
        unlock_epoch: 10,
        supply: Amount::from_u64(100),
        opt_original_attributes: Some(position(5, 30, 90)),
    };
    assert!(!inconsistent.is_well_formed());
}

#[test]
fn tokens_per_tier_constructors() {
    let both = TokensPerTier::new(Amount::from_u64(3), Amount::from_u64(4));
    assert_eq!(both.base.to_u64(), Some(3));
    assert_eq!(both.compounded.to_u64(), Some(4));
    assert_eq!(both.total().to_u64(), Some(7));
    assert!(!both.is_default());

    let base = TokensPerTier::new_base(Amount::from_u64(3));
    assert_eq!(base.base.to_u64(), Some(3));
    assert_eq!(base.compounded.to_u64(), Some(0));
    assert!(!base.is_default());

    let compounded = TokensPerTier::new_compounded(Amount::from_u64(4));
    assert_eq!(compounded.base.to_u64(), Some(0));
    assert_eq!(compounded.compounded.to_u64(), Some(4));
    assert!(!compounded.is_default());

    assert!(TokensPerTier::default().is_default());
    assert!(TokensPerTier::new(Amount::zero(), Amount::zero()).is_default());

    let sum = both.plus(&base);
    assert_eq!(sum.base.to_u64(), Some(6));
    assert_eq!(sum.compounded.to_u64(), Some(4));
}

#[test]
fn tokens_per_tier_without() {
    let tokens = |base: u64, compounded: u64| {
        TokensPerTier::new(Amount::from_u64(base), Amount::from_u64(compounded))
    };
    let left = |from: &TokensPerTier, taken: &TokensPerTier| {
        from.checked_without(taken)
            .map(|t| (t.base.to_u64().unwrap(), t.compounded.to_u64().unwrap()))
    };
    let held = tokens(6, 4);
    assert_eq!(left(&held, &tokens(2, 1)), Some((4, 3)));
    assert_eq!(left(&held, &tokens(6, 4)), Some((0, 0)));
    assert_eq!(left(&held, &tokens(0, 0)), Some((6, 4)));
    // one more of the base than there is comes out of the compounded part
    assert_eq!(left(&held, &tokens(7, 1)), Some((0, 2)));
    assert_eq!(left(&held, &tokens(10, 0)), Some((0, 0)));
    // and the other way round
    assert_eq!(left(&held, &tokens(1, 5)), Some((4, 0)));
    assert_eq!(left(&held, &tokens(0, 10)), Some((0, 0)));
    // but no more than both hold together
    assert_eq!(left(&held, &tokens(7, 4)), None);
    assert_eq!(left(&held, &tokens(0, 11)), None);
    assert_eq!(left(&held, &tokens(11, 0)), None);
}
