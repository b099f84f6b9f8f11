//! The proportional reward computation.

use vstd::prelude::*;

verus! {

/// The reward owed to a deposit of `user_staked` tokens when the pool holds
/// `total_rewards` reward tokens against `total_staked` staked tokens: the
/// floor of the proportional share.  Residual dust from the floored division
/// stays in the pool.
pub open spec fn proportional_reward(total_staked: u64, user_staked: u64, total_rewards: u64) -> int {
    (user_staked * total_rewards) / (total_staked as int)
}

/// The proportional share never exceeds the reward balance when the user's
/// stake is within the total.
pub proof fn lemma_proportional_reward_bounds(total_staked: u64, user_staked: u64, total_rewards: u64)
    requires
        0 < total_staked,
        user_staked <= total_staked,
    ensures
        0 <= proportional_reward(total_staked, user_staked, total_rewards) <= total_rewards,
{
    let ts = total_staked as int;
    let us = user_staked as int;
    let tr = total_rewards as int;
    vstd::arithmetic::mul::lemma_mul_nonnegative(us, tr);
    vstd::arithmetic::mul::lemma_mul_inequality(us, ts, tr);
    vstd::arithmetic::div_mod::lemma_div_is_ordered(us * tr, ts * tr, ts);
    vstd::arithmetic::div_mod::lemma_div_multiples_vanish(tr, ts);
    vstd::arithmetic::div_mod::lemma_div_pos_is_pos(us * tr, ts);
}

/// Computes a staker's proportional share of the pool's rewards:
/// `floor(user_staked_tokens * total_rewards / total_staked_tokens)`.
///
/// The product is formed at double width so it cannot overflow, and only the
/// final quotient is narrowed.
pub fn economy_estimate_rewards(
    total_staked_tokens: u64,
    user_staked_tokens: u64,
    total_rewards: u64,
) -> (reward: u64)
    requires
        0 < total_staked_tokens,
        user_staked_tokens <= total_staked_tokens,
    ensures
        reward == proportional_reward(total_staked_tokens, user_staked_tokens, total_rewards),
        reward <= total_rewards,
{
    proof {
        lemma_proportional_reward_bounds(total_staked_tokens, user_staked_tokens, total_rewards);
    }
    let user_staked_tokens_u128 = user_staked_tokens as u128;
    let total_rewards_u128 = total_rewards as u128;
    let total_staked_tokens_u128 = total_staked_tokens as u128;

    assert(user_staked_tokens_u128 * total_rewards_u128 <= u128::MAX) by (nonlinear_arith)
        requires
            0 <= user_staked_tokens_u128 <= u64::MAX,
            0 <= total_rewards_u128 <= u64::MAX,
    ;
    let final_result_u128 = (user_staked_tokens_u128 * total_rewards_u128)
        / total_staked_tokens_u128;

    final_result_u128 as u64
}

} // verus!
