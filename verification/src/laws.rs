//! What holds of a guild whatever is called on it, and in whatever order.

use vstd::prelude::*;
use crate::errors::GuildError;
use crate::farm_base::{amounts_sum, lemma_compounded_sum_at_most_amounts, lemma_merged_with};
use crate::farm_staking::FarmStakingView;
use crate::guild_config::{Epoch, GuildScConfigView};
use crate::guild_factory::{Address, GuildFactoryView};
use crate::rewards::{
    lemma_share_at_most_whole, spec_blocks_in_year, spec_bound_amount_by_apr,
    spec_calculate_rewards,
};
use crate::tier_types::{Percent, MAX_PERCENT};
use crate::token_attributes::{
    lemma_part_is_well_formed, EsdtTokenPaymentView, StakingFarmTokenAttributesView,
    StakingFarmTokenView,
};
use crate::unbond_farm::UnbondFarmTokenView;
use crate::unstake_farm::unstaked_tokens;

verus! {

/// Conservation, for a stake: what the positions in circulation hold grows by
/// the staked amount, and so does what the guild counts as staked. The new
/// position holds the staked amount and what the merged positions held.
pub proof fn lemma_stake_conserves(
    guild: FarmStakingView,
    config: GuildScConfigView,
    factory: GuildFactoryView,
    original_caller: Address,
    farming_token_payment: EsdtTokenPaymentView,
    additional_farm_tokens: Seq<StakingFarmTokenView>,
    current_block_nonce: u64,
)
    requires
        guild.wf(),
        guild.stake_error(
            config,
            factory,
            original_caller,
            farming_token_payment,
            additional_farm_tokens,
            current_block_nonce,
        ) is None,
    ensures
        guild.after_stake(
            config,
            factory,
            original_caller,
            farming_token_payment.amount,
            current_block_nonce,
        ).total_staked_tokens() == guild.total_staked_tokens() + farming_token_payment.amount,
        guild.staked_position(
            config,
            factory,
            original_caller,
            farming_token_payment.amount,
            additional_farm_tokens,
            current_block_nonce,
        ).current_farm_amount == farming_token_payment.amount + amounts_sum(
            additional_farm_tokens,
            additional_farm_tokens.len() as int,
        ),
{
    let accrued = guild.accrued(config.total_staking_token_staked, factory, current_block_nonce);
    lemma_merged_with(
        StakingFarmTokenAttributesView {
            reward_per_share: accrued.rps_of(guild, original_caller),
            compounded_reward: 0,
            current_farm_amount: farming_token_payment.amount,
        },
        additional_farm_tokens,
        guild.farm_token_id.unwrap(),
        0,
        additional_farm_tokens.len() as int,
    );
    assert(amounts_sum(additional_farm_tokens, 0) == 0);
}

/// Conservation, for a claim: the new position holds what the old ones held,
/// and what the guild counts as staked stays as it is.
pub proof fn lemma_claim_conserves(
    guild: FarmStakingView,
    config: GuildScConfigView,
    factory: GuildFactoryView,
    caller: Address,
    tokens: Seq<StakingFarmTokenView>,
    current_block_nonce: u64,
)
    ensures
        guild.after_claim(
            config,
            factory,
            caller,
            tokens,
            current_block_nonce,
        ).total_staked_tokens() == guild.total_staked_tokens(),
        guild.claimed_position(
            config,
            factory,
            caller,
            tokens,
            current_block_nonce,
        ).current_farm_amount == amounts_sum(tokens, tokens.len() as int),
{
}

/// Conservation, for compounding: the new position holds what the old ones
/// held and the rewards, and what the guild counts as staked grows by the
/// rewards.
pub proof fn lemma_compound_conserves(
    guild: FarmStakingView,
    config: GuildScConfigView,
    factory: GuildFactoryView,
    caller: Address,
    tokens: Seq<StakingFarmTokenView>,
    current_block_nonce: u64,
)
    ensures
        guild.after_compound(
            config,
            factory,
            caller,
            tokens,
            current_block_nonce,
        ).total_staked_tokens() == guild.total_staked_tokens() + guild.rewards_after_accrual(
            config,
            factory,
            caller,
            tokens,
            current_block_nonce,
        ),
        guild.compounded_position(
            config,
            factory,
            caller,
            tokens,
            current_block_nonce,
        ).current_farm_amount == amounts_sum(tokens, tokens.len() as int)
            + guild.rewards_after_accrual(config, factory, caller, tokens, current_block_nonce),
{
}

/// Conservation, for every call that takes positions out (a single unstake,
/// the closing of the guild, a migration): what the guild counts as staked
/// shrinks by what the positions held.
pub proof fn lemma_exit_conserves(
    guild: FarmStakingView,
    config: GuildScConfigView,
    factory: GuildFactoryView,
    caller: Address,
    tokens: Seq<StakingFarmTokenView>,
    current_block_nonce: u64,
)
    requires
        guild.wf(),
        guild.exit_error(config, factory, caller, tokens, current_block_nonce) is None,
    ensures
        guild.after_exit(
            config,
            factory,
            caller,
            tokens,
            current_block_nonce,
        ).total_staked_tokens() + amounts_sum(tokens, tokens.len() as int)
            == guild.total_staked_tokens(),
{
    reveal(FarmStakingView::after_exit);
    let unstaked = unstaked_tokens(tokens);
    crate::farm_base::lemma_compounded_sum_at_most_amounts(
        tokens,
        guild.farm_token_id.unwrap(),
        tokens.len() as int,
    );
    assert(guild.pool_of(caller).holds(unstaked));
}

/// Conservation, for a cancelled unbonding: the new position holds what was
/// locked, and what the guild counts as staked grows by it.
pub proof fn lemma_cancel_unbond_conserves(
    guild: FarmStakingView,
    config: GuildScConfigView,
    factory: GuildFactoryView,
    caller: Address,
    token: UnbondFarmTokenView,
    current_block_nonce: u64,
)
    requires
        guild.wf(),
        guild.cancel_unbond_error(config, factory, caller, token, current_block_nonce) is None,
    ensures
        guild.after_cancel_unbond(
            config,
            factory,
            caller,
            token,
            current_block_nonce,
        ).total_staked_tokens() == guild.total_staked_tokens() + token.payment.amount,
        guild.restaked_position(
            config,
            factory,
            caller,
            token,
            current_block_nonce,
        ).current_farm_amount == token.payment.amount,
{
    let original = token.attributes.opt_original_attributes.unwrap();
    crate::token_attributes::lemma_part_is_well_formed(original, token.payment.amount);
}

/// Conservation, over any sequence of calls: where the positions in
/// circulation hold at the start what the guild counts as staked, and every
/// call changes the two by the same amount, they are equal after every call.
pub proof fn lemma_conservation_over_calls(held: Seq<int>, staked: Seq<int>, after: int)
    requires
        held.len() == staked.len(),
        0 <= after < held.len(),
        held[0] == staked[0],
        forall|i: int|
            0 <= i < held.len() - 1 ==> #[trigger] held[i + 1] - held[i] == staked[i + 1]
                - staked[i],
    ensures
        held[after] == staked[after],
    decreases after,
{
    if after > 0 {
        lemma_conservation_over_calls(held, staked, after - 1);
        assert(held[(after - 1) + 1] - held[after - 1] == staked[(after - 1) + 1] - staked[after
            - 1]);
    }
}

/// Pro-rata fairness: a position of `amount` that was staked when its
/// accumulator stood at `checkpoint` is owed `amount * (rps - checkpoint) /
/// division_safety_constant` once the accumulator stands at `rps`. Nothing
/// else enters: not what others have claimed or compounded in between, and
/// not how often.
pub proof fn lemma_pro_rata_fairness(
    amount: nat,
    checkpoint: nat,
    rps: nat,
    division_safety_constant: nat,
)
    requires
        checkpoint <= rps,
        division_safety_constant > 0,
    ensures
        spec_calculate_rewards(amount, checkpoint, rps, division_safety_constant) == amount * (rps
            - checkpoint) as nat / division_safety_constant,
{
    if rps == checkpoint {
        assert(amount * 0 == 0) by (nonlinear_arith);
        assert(0nat / division_safety_constant == 0) by (nonlinear_arith)
            requires
                division_safety_constant > 0,
        ;
    }
}

/// Pro-rata fairness, for the claims of others: a claim moves both
/// accumulators to where the accrual of its block moves them, whoever
/// claims, and whatever is claimed.
pub proof fn lemma_claim_moves_accumulators_by_accrual(
    guild: FarmStakingView,
    config: GuildScConfigView,
    factory: GuildFactoryView,
    caller: Address,
    tokens: Seq<StakingFarmTokenView>,
    current_block_nonce: u64,
)
    ensures
        guild.after_claim(config, factory, caller, tokens, current_block_nonce).user_rps
            == guild.accrued(
            config.total_staking_token_staked,
            factory,
            current_block_nonce,
        ).user_rps,
        guild.after_claim(config, factory, caller, tokens, current_block_nonce).guild_master_rps
            == guild.accrued(
            config.total_staking_token_staked,
            factory,
            current_block_nonce,
        ).guild_master_rps,
{
}

/// Rounding up a quotient whose dividend is off by less than the divisor is
/// off by one at most.
pub proof fn lemma_round_up_is_stable(dividend: nat, excess: nat, divisor: nat)
    requires
        divisor > 0,
        excess < divisor,
    ensures
        (dividend + divisor - 1) / divisor as int <= (dividend + excess + divisor - 1)
            / divisor as int <= (dividend + divisor - 1) / divisor as int + 1,
{
    let low = (dividend + divisor - 1) / divisor as int;
    let high = (dividend + excess + divisor - 1) / divisor as int;
    assert(low <= high) by (nonlinear_arith)
        requires
            divisor > 0,
            low == (dividend + divisor - 1) / divisor as int,
            high == (dividend + excess + divisor - 1) / divisor as int,
    ;
    assert(high <= low + 1) by (nonlinear_arith)
        requires
            divisor > 0,
            excess < divisor,
            low == (dividend + divisor - 1) / divisor as int,
            high == (dividend + excess + divisor - 1) / divisor as int,
    ;
}

/// Rounding up a quotient and multiplying back overshoots by less than the
/// divisor.
pub proof fn lemma_round_up_overshoot(dividend: nat, divisor: nat)
    requires
        divisor > 0,
    ensures
        dividend <= ((dividend + divisor - 1) / divisor as int) * divisor < dividend + divisor,
{
    let q = (dividend + divisor - 1) / divisor as int;
    assert(dividend <= q * divisor < dividend + divisor) by (nonlinear_arith)
        requires
            divisor > 0,
            q == (dividend + divisor - 1) / divisor as int,
    ;
}

/// The exact average of three checkpoints by their amounts, rounded up.
pub open spec fn spec_average_of_three(
    a: StakingFarmTokenAttributesView,
    b: StakingFarmTokenAttributesView,
    c: StakingFarmTokenAttributesView,
) -> int {
    let total = a.current_farm_amount + b.current_farm_amount + c.current_farm_amount;
    (a.reward_per_share * a.current_farm_amount + b.reward_per_share * b.current_farm_amount
        + c.reward_per_share * c.current_farm_amount + total - 1) / total as int
}

/// Merging two positions and then a third gives the amounts of all three,
/// and a checkpoint that is the exact average of the three, rounded up, or
/// one more.
pub proof fn lemma_merge_of_three(
    a: StakingFarmTokenAttributesView,
    b: StakingFarmTokenAttributesView,
    c: StakingFarmTokenAttributesView,
)
    requires
        a.current_farm_amount + b.current_farm_amount > 0,
    ensures
        a.merged(b).merged(c).current_farm_amount == a.current_farm_amount + b.current_farm_amount
            + c.current_farm_amount,
        a.merged(b).merged(c).compounded_reward == a.compounded_reward + b.compounded_reward
            + c.compounded_reward,
        spec_average_of_three(a, b, c) <= a.merged(b).merged(c).reward_per_share
            <= spec_average_of_three(a, b, c) + 1,
{
    let sa = a.current_farm_amount;
    let sb = b.current_farm_amount;
    let sc = c.current_farm_amount;
    let ra = a.reward_per_share;
    let rb = b.reward_per_share;
    let rc = c.reward_per_share;
    let first = ra * sa + rb * sb;
    let rab = a.merged(b).reward_per_share;
    assert(rab == (first + (sa + sb) - 1) / (sa + sb) as int);
    lemma_round_up_overshoot(first, sa + sb);
    let excess = (rab * (sa + sb) - first) as nat;
    assert(excess < sa + sb);
    let dividend = first + rc * sc;
    let total = sa + sb + sc;
    assert(rab * (sa + sb) + rc * sc == dividend + excess);
    lemma_round_up_is_stable(dividend, excess, total);
    assert(a.merged(b).merged(c).reward_per_share == (rab * (sa + sb) + rc * sc + total - 1)
        / total as int);
}

/// Merge associativity: merging `a` with `b` and then with `c` gives the same
/// amounts as merging `b` with `c` and then with `a`, and checkpoints that
/// differ by one at most: each is the exact average, rounded up, or one more.
pub proof fn lemma_merge_associativity(
    a: StakingFarmTokenAttributesView,
    b: StakingFarmTokenAttributesView,
    c: StakingFarmTokenAttributesView,
)
    requires
        a.current_farm_amount + b.current_farm_amount > 0,
        b.current_farm_amount + c.current_farm_amount > 0,
    ensures
        a.merged(b).merged(c).current_farm_amount == b.merged(c).merged(a).current_farm_amount,
        a.merged(b).merged(c).compounded_reward == b.merged(c).merged(a).compounded_reward,
        a.merged(b).merged(c).reward_per_share - b.merged(c).merged(a).reward_per_share <= 1,
        b.merged(c).merged(a).reward_per_share - a.merged(b).merged(c).reward_per_share <= 1,
{
    lemma_merge_of_three(a, b, c);
    lemma_merge_of_three(b, c, a);
    assert(spec_average_of_three(a, b, c) == spec_average_of_three(b, c, a));
}

/// Rounding down twice gives no more than rounding down once: what two
/// amounts may earn apart is at most what they may earn together.
pub proof fn lemma_bound_is_superadditive(
    first: nat,
    second: nat,
    apr: Percent,
    blocks_in_year: nat,
)
    requires
        blocks_in_year > 0,
    ensures
        spec_bound_amount_by_apr(first, apr, blocks_in_year) + spec_bound_amount_by_apr(
            second,
            apr,
            blocks_in_year,
        ) <= spec_bound_amount_by_apr(first + second, apr, blocks_in_year),
{
    let m = MAX_PERCENT as nat;
    let x = first * (apr as nat);
    let y = second * (apr as nat);
    assert((first + second) * (apr as nat) == x + y) by (nonlinear_arith)
        requires
            x == first * (apr as nat),
            y == second * (apr as nat),
    ;
    assert(x / m + y / m <= (x + y) / m) by (nonlinear_arith)
        requires
            m > 0,
    ;
    let p = x / m;
    let q = y / m;
    let s = (x + y) / m;
    assert(p / blocks_in_year + q / blocks_in_year <= (p + q) / blocks_in_year)
        by (nonlinear_arith)
        requires
            blocks_in_year > 0,
    ;
    assert((p + q) / blocks_in_year <= s / blocks_in_year) by (nonlinear_arith)
        requires
            blocks_in_year > 0,
            p + q <= s,
    ;
}

/// A lower rate allows no more.
pub proof fn lemma_bound_is_monotonic(amount: nat, lower: Percent, higher: Percent,
    blocks_in_year: nat)
    requires
        blocks_in_year > 0,
        lower <= higher,
    ensures
        spec_bound_amount_by_apr(amount, lower, blocks_in_year) <= spec_bound_amount_by_apr(
            amount,
            higher,
            blocks_in_year,
        ),
{
    let m = MAX_PERCENT as nat;
    let x = amount * (lower as nat);
    let y = amount * (higher as nat);
    assert(x <= y) by (nonlinear_arith)
        requires
            x == amount * (lower as nat),
            y == amount * (higher as nat),
            lower <= higher,
    ;
    assert(x / m <= y / m) by (nonlinear_arith)
        requires
            x <= y,
            m > 0,
    ;
    let p = x / m;
    let q = y / m;
    assert(p / blocks_in_year <= q / blocks_in_year) by (nonlinear_arith)
        requires
            p <= q,
            blocks_in_year > 0,
    ;
}

/// The APR bound: where an accrual emits, no pool is given more than what its
/// whole stake may earn at the rate of its tier in the blocks that have
/// passed. The compounded rate of the tier must not be above its rate.
pub proof fn lemma_apr_bound_holds(
    guild: FarmStakingView,
    total_staked: nat,
    current_block_nonce: u64,
)
    requires
        guild.wf(),
        guild.mints(current_block_nonce),
        guild.mint_error(total_staked, current_block_nonce) is None,
        guild.internal_user_tiers[guild.user_tier(total_staked).unwrap()].compounded_apr
            <= guild.internal_user_tiers[guild.user_tier(total_staked).unwrap()].apr,
        guild.internal_guild_master_tiers[guild.guild_master_tier().unwrap()].compounded_apr
            <= guild.internal_guild_master_tiers[guild.guild_master_tier().unwrap()].apr,
    ensures
        guild.minted_rewards(total_staked, current_block_nonce).users <= spec_bound_amount_by_apr(
            guild.users_tokens().total(),
            guild.internal_user_tiers[guild.user_tier(total_staked).unwrap()].apr,
            spec_blocks_in_year(guild.internal_seconds_per_block),
        ) * (current_block_nonce - guild.last_reward_block_nonce),
        guild.minted_rewards(total_staked, current_block_nonce).guild_master
            <= spec_bound_amount_by_apr(
            guild.master_tokens().total(),
            guild.internal_guild_master_tiers[guild.guild_master_tier().unwrap()].apr,
            spec_blocks_in_year(guild.internal_seconds_per_block),
        ) * (current_block_nonce - guild.last_reward_block_nonce),
{
    let blocks_in_year = spec_blocks_in_year(guild.internal_seconds_per_block);
    let blocks = (current_block_nonce - guild.last_reward_block_nonce) as nat;
    let user_tier = guild.internal_user_tiers[guild.user_tier(total_staked).unwrap()];
    let master_tier = guild.internal_guild_master_tiers[guild.guild_master_tier().unwrap()];
    let users = guild.users_tokens();
    let master = guild.master_tokens();
    let per_block = guild.amount_apr_bounded(total_staked);

    lemma_bound_is_monotonic(users.compounded, user_tier.compounded_apr, user_tier.apr,
        blocks_in_year);
    lemma_bound_is_superadditive(users.base, users.compounded, user_tier.apr, blocks_in_year);
    let users_whole = spec_bound_amount_by_apr(users.total(), user_tier.apr, blocks_in_year);
    assert(per_block.users <= users_whole);
    assert(per_block.users * blocks <= users_whole * blocks) by (nonlinear_arith)
        requires
            per_block.users <= users_whole,
    ;

    lemma_bound_is_monotonic(
        master.compounded,
        master_tier.compounded_apr,
        master_tier.apr,
        blocks_in_year,
    );
    lemma_bound_is_superadditive(master.base, master.compounded, master_tier.apr, blocks_in_year);
    let master_whole = spec_bound_amount_by_apr(master.total(), master_tier.apr, blocks_in_year);
    assert(per_block.guild_master <= master_whole);
    assert(per_block.guild_master * blocks <= master_whole * blocks) by (nonlinear_arith)
        requires
            per_block.guild_master <= master_whole,
    ;
}

/// The emission is also never more than the flat reward: the two shares add
/// up to it before they are capped.
pub proof fn lemma_emission_at_most_flat_reward(
    guild: FarmStakingView,
    total_staked: nat,
    current_block_nonce: u64,
)
    requires
        guild.wf(),
        guild.mint_error(total_staked, current_block_nonce) is None,
    ensures
        guild.minted_rewards(total_staked, current_block_nonce).total() <= guild.per_block_rewards(
            current_block_nonce,
        ),
{
    if guild.mints(current_block_nonce) {
        crate::rewards::lemma_share_at_most_whole(
            guild.master_tokens().total(),
            guild.total_staked_tokens(),
            guild.per_block_rewards(current_block_nonce),
        );
    }
}

/// Idempotent close: a guild that is closing takes no closing, no stake, no
/// compounding and no cancelled unbonding, each with the error that says so.
/// A call that is rejected changes nothing, as the contract of each of these
/// calls states.
pub proof fn lemma_closing_guild_rejects(
    guild: FarmStakingView,
    config: GuildScConfigView,
    factory: GuildFactoryView,
    caller: Address,
    farming_token_payment: EsdtTokenPaymentView,
    tokens: Seq<StakingFarmTokenView>,
    unbond_token: UnbondFarmTokenView,
    current_block_nonce: u64,
    current_epoch: Epoch,
)
    requires
        guild.guild_closing,
    ensures
        guild.close_guild_error(
            config,
            factory,
            caller,
            tokens,
            current_block_nonce,
            current_epoch,
        ) == Some(GuildError::GuildClosing),
        guild.stake_error(
            config,
            factory,
            caller,
            farming_token_payment,
            tokens,
            current_block_nonce,
        ) == Some(GuildError::GuildClosing),
        guild.compound_error(config, factory, caller, tokens, current_block_nonce) == Some(
            GuildError::GuildClosing,
        ),
        guild.cancel_unbond_error(config, factory, caller, unbond_token, current_block_nonce)
            == Some(GuildError::GuildClosing),
{
}

/// Idempotent close: a guild that was closed is closing.
pub proof fn lemma_closed_guild_is_closing(
    guild: FarmStakingView,
    config: GuildScConfigView,
    factory: GuildFactoryView,
    caller: Address,
    tokens: Seq<StakingFarmTokenView>,
    current_block_nonce: u64,
)
    ensures
        guild.after_close_guild(config, factory, caller, tokens, current_block_nonce).guild_closing,
        !guild.after_close_guild(
            config,
            factory,
            caller,
            tokens,
            current_block_nonce,
        ).produce_rewards_enabled,
{
}

} // verus!
