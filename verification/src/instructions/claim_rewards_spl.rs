//! Paying out a stake's rewards.
use vstd::prelude::*;
use crate::rewards::{accrued, accrued_rewards, can_settle, can_update_pool, owed, pending_rewards, pool_update_fits, settlement_fits, update_pool, updated_pool};
use crate::states::global_state::GlobalState;
use crate::states::stake::Stake;

verus! {

/// A claim at `now` stays within the machine integers (the program aborts
/// otherwise).
pub open spec fn can_claim(g: GlobalState, s: Stake, now: i64) -> bool {
    &&& can_update_pool(g, now)
    &&& can_settle(s, updated_pool(g, now).acc_reward_per_share)
}

/// The stake after a claim at `now`: settled at the updated index, with
/// nothing left unclaimed.
pub open spec fn claimed_stake(g: GlobalState, s: Stake, now: i64) -> Stake {
    let index = updated_pool(g, now).acc_reward_per_share;
    Stake {
        unclaimed_rewards: 0,
        reward_debt: accrued(s.amount, index),
        last_update_time: now,
        ..s
    }
}

/// What a claim at `now` mints to the claimer: everything the stake is owed at
/// the updated index, if that is anything.
pub open spec fn claim_payout(g: GlobalState, s: Stake, now: i64) -> Option<u64> {
    let total = owed(s, updated_pool(g, now).acc_reward_per_share);
    if total > 0 {
        Some(total as u64)
    } else {
        None
    }
}

/// Settles `stake` at clock reading `now` and empties its unclaimed rewards.
/// Returns the units that the caller mints to the claimer, if any.
pub fn claim_rewards_spl(global: &mut GlobalState, stake: &mut Stake, now: i64) -> (minted: Option<u64>)
    requires
        can_claim(*old(global), *old(stake), now),
    ensures
        *final(global) == updated_pool(*old(global), now),
        *final(stake) == claimed_stake(*old(global), *old(stake), now),
        minted == claim_payout(*old(global), *old(stake), now),
        final(global).acc_reward_per_share >= old(global).acc_reward_per_share,
        final(stake).unclaimed_rewards == 0,
{
    update_pool(global, now);
    let index = global.acc_reward_per_share;

    let pending_rewards = pending_rewards(stake, index);
    if pending_rewards > 0 {
        stake.unclaimed_rewards = stake.unclaimed_rewards + pending_rewards;
    }

    let total_rewards = stake.unclaimed_rewards;
    let minted = if total_rewards > 0 {
        stake.unclaimed_rewards = 0;
        Some(total_rewards)
    } else {
        None
    };

    stake.reward_debt = accrued_rewards(stake.amount, index);
    stake.last_update_time = now;
    minted
}

/// Whether a claim on `stake` at `now` stays within the machine integers.
pub fn claim_rewards_spl_fits(global: &GlobalState, stake: &Stake, now: i64) -> (ok: bool)
    ensures
        ok == can_claim(*global, *stake, now),
{
    if !pool_update_fits(global, now) {
        return false;
    }
    let mut updated = *global;
    update_pool(&mut updated, now);
    settlement_fits(stake, updated.acc_reward_per_share)
}

} // verus!
