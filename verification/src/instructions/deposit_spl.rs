//! Depositing into a stake.
use vstd::prelude::*;
use anchor_lang::prelude::Pubkey;
use crate::rewards::{accrued, accrued_rewards, can_accrue, can_settle, can_update_pool, owed, pending_rewards, pool_update_fits, settlement_fits, accrual_fits, update_pool, updated_pool};
use crate::states::global_state::GlobalState;
use crate::states::stake::Stake;

verus! {

/// A deposit of `amount` at `now` stays within the machine integers (the
/// program aborts otherwise).
pub open spec fn can_deposit(g: GlobalState, s: Stake, amount: u64, now: i64) -> bool {
    let index = updated_pool(g, now).acc_reward_per_share;
    &&& can_update_pool(g, now)
    &&& g.total_staked + amount <= u64::MAX
    &&& if s.amount > 0 {
        &&& can_settle(s, index)
        &&& s.amount + amount <= u64::MAX
        &&& can_accrue((s.amount + amount) as u64, index)
    } else {
        can_accrue(amount, index)
    }
}

/// The pool after a deposit of `amount` at `now`: brought up to `now`, with
/// `amount` more staked.
pub open spec fn deposited_pool(g: GlobalState, amount: u64, now: i64) -> GlobalState {
    let u = updated_pool(g, now);
    GlobalState { total_staked: (u.total_staked + amount) as u64, ..u }
}

/// The stake after a deposit of `amount` at `now`. A stake that holds units is
/// settled at the updated index (its pending rewards move to the unclaimed
/// ones) and grows by `amount`; a stake that holds none is opened afresh for
/// `depositor`, with no unclaimed rewards.
pub open spec fn deposited_stake(
    g: GlobalState,
    s: Stake,
    depositor: Pubkey,
    amount: u64,
    bump: u8,
    now: i64,
) -> Stake {
    let index = updated_pool(g, now).acc_reward_per_share;
    if s.amount > 0 {
        let new_amount = (s.amount + amount) as u64;
        Stake {
            amount: new_amount,
            last_update_time: now,
            reward_debt: accrued(new_amount, index),
            unclaimed_rewards: owed(s, index) as u64,
            ..s
        }
    } else {
        Stake {
            owner: depositor,
            amount,
            start_time: now,
            last_update_time: now,
            reward_debt: accrued(amount, index),
            unclaimed_rewards: 0,
            bump,
        }
    }
}

/// Deposits `amount` units into `stake` at clock reading `now`. The caller
/// moves the `amount` units from the depositor into the vault.
pub fn deposit_spl(
    global: &mut GlobalState,
    stake: &mut Stake,
    depositor: Pubkey,
    amount: u64,
    bump: u8,
    now: i64,
)
    requires
        can_deposit(*old(global), *old(stake), amount, now),
    ensures
        *final(global) == deposited_pool(*old(global), amount, now),
        *final(stake) == deposited_stake(*old(global), *old(stake), depositor, amount, bump, now),
        final(global).acc_reward_per_share >= old(global).acc_reward_per_share,
        final(global).total_staked == old(global).total_staked + amount,
{
    update_pool(global, now);
    global.total_staked = global.total_staked + amount;

    let index = global.acc_reward_per_share;
    if stake.amount > 0 {
        let pending_rewards = pending_rewards(stake, index);
        if pending_rewards > 0 {
            stake.unclaimed_rewards = stake.unclaimed_rewards + pending_rewards;
        }
        stake.amount = stake.amount + amount;
        stake.reward_debt = accrued_rewards(stake.amount, index);
        stake.last_update_time = now;
    } else {
        *stake = Stake {
            owner: depositor,
            amount,
            start_time: now,
            last_update_time: now,
            reward_debt: accrued_rewards(amount, index),
            unclaimed_rewards: 0,
            bump,
        };
    }
}

/// Whether a deposit of `amount` into `stake` at `now` stays within the
/// machine integers.
pub fn deposit_spl_fits(global: &GlobalState, stake: &Stake, amount: u64, now: i64) -> (ok: bool)
    ensures
        ok == can_deposit(*global, *stake, amount, now),
{
    if !pool_update_fits(global, now) {
        return false;
    }
    if global.total_staked.checked_add(amount).is_none() {
        return false;
    }
    let mut updated = *global;
    update_pool(&mut updated, now);
    let index = updated.acc_reward_per_share;
    if stake.amount > 0 {
        match stake.amount.checked_add(amount) {
            Some(new_amount) => settlement_fits(stake, index) && accrual_fits(new_amount, index),
            None => false,
        }
    } else {
        accrual_fits(amount, index)
    }
}

} // verus!
