//! Closing a stake.
use vstd::prelude::*;
use anchor_lang::prelude::Pubkey;
use crate::events::ClosePositionSPLEvent;
use crate::instructions::claim_rewards_spl::claim_payout;
use crate::rewards::{can_settle, can_update_pool, owed, pending, pending_rewards, pool_update_fits, settlement_fits, update_pool, updated_pool};
use crate::states::global_state::GlobalState;
use crate::states::stake::Stake;

verus! {

/// What closing a stake asks the caller to do.
#[derive(Clone, Copy, Debug, PartialEq, Eq)]
pub struct ClosePosition {
    /// Staked units to move from the vault back to the closer.
    pub returned: u64,
    /// Reward units to mint to the closer, if any.
    pub minted: Option<u64>,
    /// The event to emit.
    pub event: ClosePositionSPLEvent,
}

/// Closing a stake at `now` stays within the machine integers (the program
/// aborts otherwise).
pub open spec fn can_close(g: GlobalState, s: Stake, now: i64) -> bool {
    let index = updated_pool(g, now).acc_reward_per_share;
    &&& can_update_pool(g, now)
    &&& can_settle(s, index)
    &&& owed(s, index) + s.amount <= u64::MAX
}

/// The pool after a stake is closed at `now`: brought up to `now`, with the
/// stake's units taken off the total (down to zero at least).
pub open spec fn closed_pool(g: GlobalState, s: Stake, now: i64) -> GlobalState {
    let u = updated_pool(g, now);
    GlobalState {
        total_staked: if u.total_staked >= s.amount {
            (u.total_staked - s.amount) as u64
        } else {
            0
        },
        ..u
    }
}

/// Everything a stake is owed at the index of the pool brought up to `now`.
pub open spec fn close_rewards(g: GlobalState, s: Stake, now: i64) -> int {
    owed(s, updated_pool(g, now).acc_reward_per_share)
}

/// Closes `stake` at clock reading `now`: returns its units and pays out
/// everything it is owed. `closer`, `closer_token_account` and `stake_account`
/// name the accounts in the event. The stake account itself is closed by the
/// caller.
pub fn close_position_spl(
    global: &mut GlobalState,
    stake: &mut Stake,
    closer: Pubkey,
    closer_token_account: Pubkey,
    stake_account: Pubkey,
    now: i64,
) -> (r: ClosePosition)
    requires
        can_close(*old(global), *old(stake), now),
    ensures
        *final(global) == closed_pool(*old(global), *old(stake), now),
        *final(stake) == (Stake { unclaimed_rewards: 0, ..*old(stake) }),
        r.returned == old(stake).amount,
        r.minted == (if close_rewards(*old(global), *old(stake), now) > 0 {
            Some(close_rewards(*old(global), *old(stake), now) as u64)
        } else {
            None
        }),
        r.event == (ClosePositionSPLEvent {
            user: closer,
            user_token_account: closer_token_account,
            closed_account: stake_account,
            amount: (close_rewards(*old(global), *old(stake), now) + old(stake).amount) as u64,
        }),
        final(global).acc_reward_per_share >= old(global).acc_reward_per_share,
        r.minted == claim_payout(*old(global), *old(stake), now),
        r.event.amount == old(stake).unclaimed_rewards + pending(*old(stake), final(global).acc_reward_per_share)
            + old(stake).amount,
{
    update_pool(global, now);
    global.total_staked = global.total_staked.saturating_sub(stake.amount);

    let returned = stake.amount;

    let pending_rewards = pending_rewards(stake, global.acc_reward_per_share);
    let total_rewards = stake.unclaimed_rewards + pending_rewards;

    let minted = if total_rewards > 0 {
        stake.unclaimed_rewards = 0;
        Some(total_rewards)
    } else {
        None
    };

    let event = ClosePositionSPLEvent {
        user: closer,
        user_token_account: closer_token_account,
        closed_account: stake_account,
        amount: total_rewards + stake.amount,
    };
    ClosePosition { returned, minted, event }
}

/// Whether closing `stake` at `now` stays within the machine integers.
pub fn close_position_spl_fits(global: &GlobalState, stake: &Stake, now: i64) -> (ok: bool)
    ensures
        ok == can_close(*global, *stake, now),
{
    if !pool_update_fits(global, now) {
        return false;
    }
    let mut updated = *global;
    update_pool(&mut updated, now);
    let index = updated.acc_reward_per_share;
    if !settlement_fits(stake, index) {
        return false;
    }
    let owed_now = stake.unclaimed_rewards + pending_rewards(stake, index);
    owed_now.checked_add(stake.amount).is_some()
}

} // verus!
