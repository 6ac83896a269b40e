//! The reward index and what a stake has earned under it.
use vstd::prelude::*;
use crate::constants::PRECISION;
use crate::states::global_state::GlobalState;
use crate::states::stake::Stake;

verus! {

/// Seconds between the last update and `now`, as the program counts them: the
/// signed difference read as an unsigned 64-bit number (a clock that went
/// backwards gives a huge count).
pub open spec fn elapsed(now: i64, last: i64) -> int {
    if now >= last {
        now - last
    } else {
        now - last + 0x1_0000_0000_0000_0000
    }
}

/// Reward units that the pool emitted since its last update.
pub open spec fn emitted(g: GlobalState, now: i64) -> int {
    elapsed(now, g.last_update_time) * g.reward_rate
}

/// How much the reward index grows when the pool is brought up to `now`:
/// the emitted rewards, scaled by `PRECISION`, shared over the staked units
/// (rounded down). Nothing is credited while nothing is staked.
pub open spec fn index_increment(g: GlobalState, now: i64) -> int {
    if g.total_staked > 0 {
        emitted(g, now) * PRECISION / (g.total_staked as int)
    } else {
        0
    }
}

/// Bringing the pool up to `now` stays within the machine integers (the
/// program aborts otherwise).
pub open spec fn can_update_pool(g: GlobalState, now: i64) -> bool {
    &&& i64::MIN <= now - g.last_update_time <= i64::MAX
    &&& g.total_staked > 0 ==> {
        &&& emitted(g, now) <= u64::MAX
        &&& g.acc_reward_per_share + index_increment(g, now) <= u128::MAX
    }
}

/// The pool brought up to `now`: the index has grown by the increment and the
/// update time is `now`; everything else is unchanged.
pub open spec fn updated_pool(g: GlobalState, now: i64) -> GlobalState {
    GlobalState {
        acc_reward_per_share: (g.acc_reward_per_share + index_increment(g, now)) as u128,
        last_update_time: now,
        ..g
    }
}

/// The share of the index that `amount` staked units carry:
/// `amount * index / PRECISION`, rounded down and cut to 64 bits.
pub open spec fn accrued(amount: u64, index: u128) -> u64 {
    ((amount * index) / (PRECISION as int)) as u64
}

/// `amount * index` fits in 128 bits (the program aborts otherwise).
pub open spec fn can_accrue(amount: u64, index: u128) -> bool {
    amount * index <= u128::MAX
}

/// Rewards that a stake earned since it last settled, at the given index.
pub open spec fn pending(s: Stake, index: u128) -> int {
    accrued(s.amount, index) - s.reward_debt
}

/// Everything a stake is owed at the given index: the settled rewards and the
/// pending ones.
pub open spec fn owed(s: Stake, index: u128) -> int {
    s.unclaimed_rewards + pending(s, index)
}

/// Settling a stake at the given index stays within the machine integers.
pub open spec fn can_settle(s: Stake, index: u128) -> bool {
    &&& can_accrue(s.amount, index)
    &&& s.reward_debt <= accrued(s.amount, index)
    &&& owed(s, index) <= u64::MAX
}

proof fn lemma_elapsed_as_u64(d: i64)
    by (bit_vector)
    ensures
        d >= 0 ==> (d as u64) == d,
        d < 0 ==> (d as u64) == d + 0x1_0000_0000_0000_0000,
{
}

/// Brings the pool's reward index up to `now`.
pub fn update_pool(global: &mut GlobalState, now: i64)
    requires
        can_update_pool(*old(global), now),
    ensures
        *final(global) == updated_pool(*old(global), now),
{
    let time_diff = (now - global.last_update_time) as u64;
    proof {
        lemma_elapsed_as_u64((now - global.last_update_time) as i64);
    }
    if global.total_staked > 0 {
        let rewards = time_diff * global.reward_rate;
        global.acc_reward_per_share = global.acc_reward_per_share + (rewards as u128 * PRECISION)
            / global.total_staked as u128;
    }
    global.last_update_time = now;
}

/// `amount * index / PRECISION`, cut to 64 bits.
pub fn accrued_rewards(amount: u64, index: u128) -> (r: u64)
    requires
        can_accrue(amount, index),
    ensures
        r == accrued(amount, index),
{
    ((amount as u128 * index) / PRECISION) as u64
}

/// Rewards that `stake` earned since it last settled, at `index`.
pub fn pending_rewards(stake: &Stake, index: u128) -> (r: u64)
    requires
        can_accrue(stake.amount, index),
        stake.reward_debt <= accrued(stake.amount, index),
    ensures
        r == pending(*stake, index),
{
    accrued_rewards(stake.amount, index) - stake.reward_debt
}

/// Whether bringing the pool up to `now` stays within the machine integers.
pub fn pool_update_fits(global: &GlobalState, now: i64) -> (ok: bool)
    ensures
        ok == can_update_pool(*global, now),
{
    let diff = match now.checked_sub(global.last_update_time) {
        Some(d) => d,
        None => return false,
    };
    if global.total_staked == 0 {
        return true;
    }
    let time_diff = diff as u64;
    proof {
        lemma_elapsed_as_u64(diff);
    }
    let rewards = match time_diff.checked_mul(global.reward_rate) {
        Some(r) => r,
        None => return false,
    };
    let increment = (rewards as u128 * PRECISION) / global.total_staked as u128;
    global.acc_reward_per_share.checked_add(increment).is_some()
}

/// Whether `amount * index` fits in 128 bits.
pub fn accrual_fits(amount: u64, index: u128) -> (ok: bool)
    ensures
        ok == can_accrue(amount, index),
{
    (amount as u128).checked_mul(index).is_some()
}

/// Whether settling `stake` at `index` stays within the machine integers.
pub fn settlement_fits(stake: &Stake, index: u128) -> (ok: bool)
    ensures
        ok == can_settle(*stake, index),
{
    if !accrual_fits(stake.amount, index) {
        return false;
    }
    let share = accrued_rewards(stake.amount, index);
    if share < stake.reward_debt {
        return false;
    }
    stake.unclaimed_rewards.checked_add(share - stake.reward_debt).is_some()
}

} // verus!
