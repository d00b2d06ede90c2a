use guild_sc::amount::Amount;
use guild_sc::farm_staking::FarmStaking;
use guild_sc::guild_config::{GuildScConfig, InitArgs};
use guild_sc::request_id::RequestIdModule;
use guild_sc::token_attributes::TokenIdentifier;

fn guild(address: u64) -> FarmStaking {
    let config = GuildScConfig::init(InitArgs {
        total_staking_tokens_minted: Amount::from_u64(1_000),
        max_staked_tokens: Amount::from_u64(1_000),
        user_unbond_epochs: 5,
        guild_master_unbond_epochs: 5,
        min_stake_user: Amount::zero(),
        min_stake_guild_master: Amount::zero(),
        seconds_per_block: 6,
    })
    .unwrap();
    FarmStaking::init(address, 1, TokenIdentifier { id: 1 }, Amount::from_u64(1), &config, 2)
        .unwrap()
}

#[test]
fn id_to_human_readable_test() {
    let sc = guild(12345);
    let id_str = sc.build_token_display_name(&b"FARM".to_vec(), 12345, None);
    assert_eq!(id_str, b"FARM12345".to_vec());

    let id_str = sc.build_token_display_name(&b"FARM".to_vec(), 0, None);
    assert_eq!(id_str, b"FARM0".to_vec());

    let id_str = sc.build_token_display_name(&b"FARM".to_vec(), 1, None);
    assert_eq!(id_str, b"FARM1".to_vec());

    let id_str = sc.build_token_display_name(&b"FARM".to_vec(), 10, None);
    assert_eq!(id_str, b"FARM10".to_vec());
}

#[test]
fn display_name_takes_a_prefix_and_the_guild_id() {
    let sc = guild(907);
    assert_eq!(sc.get_guild_id(), 907);
    let name =
        sc.build_token_display_name(&b"FARM".to_vec(), sc.get_guild_id(), Some(b"Unbonded".to_vec()));
    assert_eq!(name, b"UnbondedFARM907".to_vec());
}

#[test]
fn human_readable_ids() {
    let sc = guild(1);
    assert_eq!(sc.id_to_human_readable(0), b"0".to_vec());
    assert_eq!(sc.id_to_human_readable(9), b"9".to_vec());
    assert_eq!(sc.id_to_human_readable(100), b"100".to_vec());
    assert_eq!(
        sc.id_to_human_readable(u64::MAX),
        b"18446744073709551615".to_vec()
    );
}
