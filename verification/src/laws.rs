//! What holds of the pool and the stakes across operations.
use vstd::prelude::*;
use anchor_lang::prelude::Pubkey;
use crate::constants::PRECISION;
use crate::instructions::claim_rewards_spl::{can_claim, claim_payout, claimed_stake};
use crate::instructions::close_position_spl::{can_close, close_rewards, closed_pool};
use crate::instructions::deposit_spl::{can_deposit, deposited_pool, deposited_stake};
use crate::rewards::{accrued, can_accrue, can_update_pool, pending, elapsed, emitted, index_increment, owed, updated_pool};
use crate::states::global_state::GlobalState;
use crate::states::stake::Stake;

verus! {

/// Bringing the pool up to date never lowers its reward index.
pub proof fn law_index_never_decreases(g: GlobalState, now: i64)
    requires
        can_update_pool(g, now),
    ensures
        updated_pool(g, now).acc_reward_per_share >= g.acc_reward_per_share,
{
}

/// The pool never credits more rewards than it emitted: the growth of the
/// index times the staked units is at most the emitted rewards (scaled by
/// `PRECISION`), and falls short of them by less than one unit per staked
/// unit.
pub proof fn law_no_over_distribution(g: GlobalState, now: i64)
    requires
        can_update_pool(g, now),
        g.total_staked > 0,
    ensures
        index_increment(g, now) * g.total_staked <= emitted(g, now) * PRECISION,
        emitted(g, now) * PRECISION - index_increment(g, now) * g.total_staked < g.total_staked,
{
    let x = emitted(g, now) * PRECISION;
    let t = g.total_staked as int;
    vstd::arithmetic::div_mod::lemma_fundamental_div_mod(x, t);
    vstd::arithmetic::div_mod::lemma_mod_bound(x, t);
    assert(t * (x / t) == (x / t) * t) by (nonlinear_arith);
}

/// With no time elapsed the pool is already up to date: bringing it up to its
/// own update time changes nothing, and bringing it up to the same moment twice
/// is the same as once.
pub proof fn law_update_is_idempotent(g: GlobalState, now: i64)
    ensures
        updated_pool(g, g.last_update_time) == g,
        can_update_pool(updated_pool(g, now), now),
        updated_pool(updated_pool(g, now), now) == updated_pool(g, now),
{
    assert(elapsed(g.last_update_time, g.last_update_time) == 0);
    assert(elapsed(now, now) == 0);
}

/// What a stake is owed never shrinks as the pool moves forward, as long as its
/// share of the index fits in 64 bits.
pub proof fn law_owed_never_decreases(g: GlobalState, s: Stake, now: i64)
    requires
        can_update_pool(g, now),
        s.amount * updated_pool(g, now).acc_reward_per_share / (PRECISION as int) <= u64::MAX,
    ensures
        owed(s, updated_pool(g, now).acc_reward_per_share) >= owed(s, g.acc_reward_per_share),
{
    let i1 = g.acc_reward_per_share as int;
    let i2 = updated_pool(g, now).acc_reward_per_share as int;
    let a = s.amount as int;
    vstd::arithmetic::mul::lemma_mul_inequality(i1, i2, a);
    assert(a * i1 == i1 * a && a * i2 == i2 * a) by (nonlinear_arith);
    vstd::arithmetic::div_mod::lemma_div_is_ordered(a * i1, a * i2, PRECISION as int);
    assert(0 <= a * i1) by (nonlinear_arith)
        requires
            0 <= a,
            0 <= i1,
    ;
}

/// A deposit into a stake that already holds units loses none of its rewards:
/// at the pool's new index the stake is owed exactly what it was owed before
/// the deposit.
pub proof fn law_deposit_keeps_owed(
    g: GlobalState,
    s: Stake,
    depositor: Pubkey,
    amount: u64,
    bump: u8,
    now: i64,
)
    requires
        can_deposit(g, s, amount, now),
        s.amount > 0,
    ensures
        owed(deposited_stake(g, s, depositor, amount, bump, now), deposited_pool(g, amount, now).acc_reward_per_share)
            == owed(s, deposited_pool(g, amount, now).acc_reward_per_share),
{
}

/// A claim pays out everything the stake is owed and leaves it owed nothing at
/// the pool's new index.
pub proof fn law_claim_pays_all_owed(g: GlobalState, s: Stake, now: i64)
    requires
        can_claim(g, s, now),
    ensures
        owed(claimed_stake(g, s, now), updated_pool(g, now).acc_reward_per_share) == 0,
        claim_payout(g, s, now) == (if owed(s, updated_pool(g, now).acc_reward_per_share) > 0 {
            Some(owed(s, updated_pool(g, now).acc_reward_per_share) as u64)
        } else {
            None
        }),
{
}

/// A second claim at the same moment is always possible and pays nothing.
pub proof fn law_second_claim_pays_nothing(g: GlobalState, s: Stake, now: i64)
    requires
        can_claim(g, s, now),
    ensures
        can_claim(updated_pool(g, now), claimed_stake(g, s, now), now),
        claim_payout(updated_pool(g, now), claimed_stake(g, s, now), now) is None,
        updated_pool(updated_pool(g, now), now) == updated_pool(g, now),
{
    law_update_is_idempotent(g, now);
}

/// Opening a stake and closing it at the same moment is a round trip: the
/// pool's total comes back to what it was, the whole deposit is returned and no
/// reward is paid.
pub proof fn law_open_then_close_is_round_trip(
    g: GlobalState,
    s: Stake,
    depositor: Pubkey,
    amount: u64,
    bump: u8,
    now: i64,
)
    requires
        can_deposit(g, s, amount, now),
        s.amount == 0,
    ensures
        can_close(deposited_pool(g, amount, now), deposited_stake(g, s, depositor, amount, bump, now), now),
        closed_pool(
            deposited_pool(g, amount, now),
            deposited_stake(g, s, depositor, amount, bump, now),
            now,
        ).total_staked == g.total_staked,
        deposited_stake(g, s, depositor, amount, bump, now).amount == amount,
        close_rewards(deposited_pool(g, amount, now), deposited_stake(g, s, depositor, amount, bump, now), now) == 0,
{
    let d = deposited_pool(g, amount, now);
    assert(elapsed(now, now) == 0);
    assert(updated_pool(d, now) == d);
}

/// A stake earns in proportion to its size and to the growth of the index: if
/// it last settled at index `i0`, then at a later index `i1` its pending
/// rewards are `amount * (i1 - i0) / PRECISION` rounded down, or one unit
/// more (the two roundings of its share), as long as its share fits in 64
/// bits.
pub proof fn law_pending_is_share_of_index_growth(s: Stake, i0: u128, i1: u128)
    requires
        s.reward_debt == accrued(s.amount, i0),
        i0 <= i1,
        can_accrue(s.amount, i1),
        s.amount * i1 / (PRECISION as int) <= u64::MAX,
    ensures
        pending(s, i1) == s.amount * (i1 - i0) / (PRECISION as int)
            || pending(s, i1) == s.amount * (i1 - i0) / (PRECISION as int) + 1,
{
    let a = s.amount as int;
    let p = PRECISION as int;
    let x = a * i1;
    let y = a * i0;
    assert(0 <= y <= x && x - y == a * (i1 - i0)) by (nonlinear_arith)
        requires
            0 <= a,
            0 <= i0 <= i1,
            x == a * i1,
            y == a * i0,
    ;
    vstd::arithmetic::div_mod::lemma_fundamental_div_mod(x, p);
    vstd::arithmetic::div_mod::lemma_fundamental_div_mod(y, p);
    vstd::arithmetic::div_mod::lemma_mod_bound(x, p);
    vstd::arithmetic::div_mod::lemma_mod_bound(y, p);
    vstd::arithmetic::div_mod::lemma_div_is_ordered(y, x, p);
    vstd::arithmetic::div_mod::lemma_div_pos_is_pos(y, p);
    let qx = x / p;
    let qy = y / p;
    let rx = x % p;
    let ry = y % p;
    if rx >= ry {
        vstd::arithmetic::div_mod::lemma_fundamental_div_mod_converse_div(x - y, p, qx - qy, rx - ry);
    } else {
        vstd::arithmetic::div_mod::lemma_fundamental_div_mod_converse_div(x - y, p, qx - qy - 1, rx - ry + p);
    }
}

/// Units held by a collection of stakes.
pub open spec fn staked_sum(stakes: Seq<Stake>) -> int
    decreases stakes.len(),
{
    if stakes.len() == 0 {
        0
    } else {
        staked_sum(stakes.drop_last()) + stakes.last().amount
    }
}

proof fn lemma_staked_sum_nonnegative(stakes: Seq<Stake>)
    ensures
        staked_sum(stakes) >= 0,
    decreases stakes.len(),
{
    if stakes.len() > 0 {
        lemma_staked_sum_nonnegative(stakes.drop_last());
    }
}

proof fn lemma_staked_sum_update(stakes: Seq<Stake>, i: int, s: Stake)
    requires
        0 <= i < stakes.len(),
    ensures
        staked_sum(stakes.update(i, s)) == staked_sum(stakes) - stakes[i].amount + s.amount,
    decreases stakes.len(),
{
    if i == stakes.len() - 1 {
        assert(stakes.update(i, s).drop_last() =~= stakes.drop_last());
    } else {
        lemma_staked_sum_update(stakes.drop_last(), i, s);
        assert(stakes.update(i, s).drop_last() =~= stakes.drop_last().update(i, s));
    }
}

proof fn lemma_staked_sum_remove(stakes: Seq<Stake>, i: int)
    requires
        0 <= i < stakes.len(),
    ensures
        staked_sum(stakes.remove(i)) == staked_sum(stakes) - stakes[i].amount,
    decreases stakes.len(),
{
    if i == stakes.len() - 1 {
        assert(stakes.remove(i) =~= stakes.drop_last());
    } else {
        lemma_staked_sum_remove(stakes.drop_last(), i);
        assert(stakes.remove(i).drop_last() =~= stakes.drop_last().remove(i));
    }
}

/// A deposit keeps the pool's total equal to the units held by the open
/// stakes: if the total matched the stakes before, it matches them after the
/// deposit into stake `i`.
pub proof fn law_deposit_keeps_total_staked(
    g: GlobalState,
    stakes: Seq<Stake>,
    i: int,
    depositor: Pubkey,
    amount: u64,
    bump: u8,
    now: i64,
)
    requires
        0 <= i < stakes.len(),
        g.total_staked == staked_sum(stakes),
        can_deposit(g, stakes[i], amount, now),
    ensures
        deposited_pool(g, amount, now).total_staked
            == staked_sum(stakes.update(i, deposited_stake(g, stakes[i], depositor, amount, bump, now))),
{
    lemma_staked_sum_update(stakes, i, deposited_stake(g, stakes[i], depositor, amount, bump, now));
}

/// The same for a deposit that opens a new stake account (which holds no
/// units before the deposit): the total matches the stakes with the new one
/// added.
pub proof fn law_first_deposit_keeps_total_staked(
    g: GlobalState,
    stakes: Seq<Stake>,
    s: Stake,
    depositor: Pubkey,
    amount: u64,
    bump: u8,
    now: i64,
)
    requires
        s.amount == 0,
        g.total_staked == staked_sum(stakes),
        can_deposit(g, s, amount, now),
    ensures
        deposited_pool(g, amount, now).total_staked
            == staked_sum(stakes.push(deposited_stake(g, s, depositor, amount, bump, now))),
{
    assert(stakes.push(deposited_stake(g, s, depositor, amount, bump, now)).drop_last() =~= stakes);
}

/// A claim keeps the pool's total equal to the units held by the open stakes.
pub proof fn law_claim_keeps_total_staked(g: GlobalState, stakes: Seq<Stake>, i: int, now: i64)
    requires
        0 <= i < stakes.len(),
        g.total_staked == staked_sum(stakes),
        can_claim(g, stakes[i], now),
    ensures
        updated_pool(g, now).total_staked == staked_sum(stakes.update(i, claimed_stake(g, stakes[i], now))),
{
    lemma_staked_sum_update(stakes, i, claimed_stake(g, stakes[i], now));
}

/// Closing stake `i` keeps the pool's total equal to the units held by the
/// stakes that stay open; the total never has to be cut at zero.
pub proof fn law_close_keeps_total_staked(g: GlobalState, stakes: Seq<Stake>, i: int, now: i64)
    requires
        0 <= i < stakes.len(),
        g.total_staked == staked_sum(stakes),
        can_close(g, stakes[i], now),
    ensures
        g.total_staked >= stakes[i].amount,
        closed_pool(g, stakes[i], now).total_staked == staked_sum(stakes.remove(i)),
{
    lemma_staked_sum_remove(stakes, i);
    lemma_staked_sum_nonnegative(stakes.remove(i));
}

/// Units that a payout hands out (none for `None`).
pub open spec fn paid(payout: Option<u64>) -> int {
    match payout {
        Some(m) => m as int,
        None => 0,
    }
}

proof fn lemma_floor_of_sum(x: int, y: int, d: int)
    requires
        0 <= x,
        0 <= y,
        0 < d,
    ensures
        x / d + y / d <= (x + y) / d <= x / d + y / d + 1,
{
    vstd::arithmetic::div_mod::lemma_fundamental_div_mod(x, d);
    vstd::arithmetic::div_mod::lemma_fundamental_div_mod(y, d);
    vstd::arithmetic::div_mod::lemma_mod_bound(x, d);
    vstd::arithmetic::div_mod::lemma_mod_bound(y, d);
    let qx = x / d;
    let qy = y / d;
    let rx = x % d;
    let ry = y % d;
    assert(x + y == (qx + qy) * d + (rx + ry)) by (nonlinear_arith)
        requires
            x == d * qx + rx,
            y == d * qy + ry,
    ;
    if rx + ry < d {
        vstd::arithmetic::div_mod::lemma_fundamental_div_mod_converse_div(x + y, d, qx + qy, rx + ry);
    } else {
        assert(x + y == (qx + qy + 1) * d + (rx + ry - d)) by (nonlinear_arith)
            requires
                x + y == (qx + qy) * d + (rx + ry),
        ;
        vstd::arithmetic::div_mod::lemma_fundamental_div_mod_converse_div(
            x + y,
            d,
            qx + qy + 1,
            rx + ry - d,
        );
    }
}

/// Between two moments, bringing the pool up to date once credits at least as
/// much to the index as doing it in two steps, and at most one unit more (each
/// step rounds down).
proof fn lemma_split_update(g: GlobalState, t1: i64, t2: i64)
    requires
        g.last_update_time <= t1 <= t2,
        can_update_pool(g, t1),
        can_update_pool(updated_pool(g, t1), t2),
        can_update_pool(g, t2),
    ensures
        updated_pool(g, t1).acc_reward_per_share <= updated_pool(updated_pool(g, t1), t2).acc_reward_per_share,
        updated_pool(updated_pool(g, t1), t2).acc_reward_per_share <= updated_pool(g, t2).acc_reward_per_share,
        updated_pool(g, t2).acc_reward_per_share <= updated_pool(updated_pool(g, t1), t2).acc_reward_per_share + 1,
{
    let g1 = updated_pool(g, t1);
    if g.total_staked > 0 {
        let r = g.reward_rate as int;
        let d1 = t1 - g.last_update_time;
        let d2 = t2 - t1;
        assert(elapsed(t1, g.last_update_time) == d1);
        assert(elapsed(t2, t1) == d2);
        assert(elapsed(t2, g.last_update_time) == d1 + d2);
        let e1 = emitted(g, t1);
        let e2 = emitted(g1, t2);
        let e = emitted(g, t2);
        assert(e1 + e2 == e && 0 <= e1 && 0 <= e2) by (nonlinear_arith)
            requires
                e1 == d1 * r,
                e2 == d2 * r,
                e == (d1 + d2) * r,
                0 <= d1,
                0 <= d2,
                0 <= r,
        ;
        lemma_floor_of_sum(e1 * PRECISION, e2 * PRECISION, g.total_staked as int);
        vstd::arithmetic::div_mod::lemma_div_pos_is_pos(e1 * PRECISION, g.total_staked as int);
        vstd::arithmetic::div_mod::lemma_div_pos_is_pos(e2 * PRECISION, g.total_staked as int);
    }
}

/// Claiming at `t1` and again at `t2` never pays more than one claim at `t2`,
/// and, for a stake of at most `PRECISION` units, at most one unit less (the
/// extra rounding of the split), as long as the stake's share fits in 64 bits.
pub proof fn law_split_claim_never_pays_more(g: GlobalState, s: Stake, t1: i64, t2: i64)
    requires
        g.last_update_time <= t1 <= t2,
        can_claim(g, s, t1),
        can_claim(updated_pool(g, t1), claimed_stake(g, s, t1), t2),
        can_claim(g, s, t2),
        s.amount * updated_pool(g, t2).acc_reward_per_share / (PRECISION as int) <= u64::MAX,
    ensures
        paid(claim_payout(g, s, t1)) + paid(claim_payout(updated_pool(g, t1), claimed_stake(g, s, t1), t2))
            <= paid(claim_payout(g, s, t2)),
        s.amount <= PRECISION ==> paid(claim_payout(g, s, t2)) <= paid(claim_payout(g, s, t1)) + paid(
            claim_payout(updated_pool(g, t1), claimed_stake(g, s, t1), t2),
        ) + 1,
{
    let g1 = updated_pool(g, t1);
    let s1 = claimed_stake(g, s, t1);
    let a1 = g1.acc_reward_per_share as int;
    let a2 = updated_pool(g1, t2).acc_reward_per_share as int;
    let b = updated_pool(g, t2).acc_reward_per_share as int;
    let n = s.amount as int;
    let p = PRECISION as int;
    lemma_split_update(g, t1, t2);
    assert(0 <= n * a1 <= n * a2 <= n * b <= n * a2 + n) by (nonlinear_arith)
        requires
            0 <= n,
            0 <= a1 <= a2 <= b <= a2 + 1,
    ;
    vstd::arithmetic::div_mod::lemma_div_is_ordered(n * a1, n * a2, p);
    vstd::arithmetic::div_mod::lemma_div_is_ordered(n * a2, n * b, p);
    vstd::arithmetic::div_mod::lemma_div_pos_is_pos(n * a1, p);
    if n <= p {
        vstd::arithmetic::div_mod::lemma_div_is_ordered(n * b, n * a2 + p, p);
        vstd::arithmetic::div_mod::lemma_div_plus_one(n * a2, p);
        assert(p + n * a2 == n * a2 + p);
    }
}

/// A claim goes through whenever none of its arithmetic overflows: the signed
/// clock difference `dt` (read as unsigned), the emitted rewards
/// `dt * reward_rate`, the new index, the 128-bit product `amount * index`,
/// the subtraction of the debt from the stake's share and the addition to the
/// unclaimed rewards. It then mints exactly the unclaimed rewards plus the
/// share of the new index beyond the debt, if that is anything.
pub proof fn law_claim_goes_through_unless_overflow(g: GlobalState, s: Stake, now: i64, dt: int, index: int)
    requires
        i64::MIN <= now - g.last_update_time <= i64::MAX,
        dt == (if now >= g.last_update_time {
            now - g.last_update_time
        } else {
            now - g.last_update_time + 0x1_0000_0000_0000_0000
        }),
        g.total_staked > 0 ==> dt * g.reward_rate <= u64::MAX,
        index == (if g.total_staked > 0 {
            g.acc_reward_per_share + dt * g.reward_rate * 1_000_000_000_000 / (g.total_staked as int)
        } else {
            g.acc_reward_per_share as int
        }),
        index <= u128::MAX,
        s.amount * index <= u128::MAX,
        s.reward_debt <= ((s.amount * index) / 1_000_000_000_000) as u64,
        s.unclaimed_rewards + ((s.amount * index) / 1_000_000_000_000) as u64 - s.reward_debt <= u64::MAX,
    ensures
        can_claim(g, s, now),
        updated_pool(g, now).acc_reward_per_share == index,
        paid(claim_payout(g, s, now)) == s.unclaimed_rewards + ((s.amount * index) / 1_000_000_000_000) as u64
            - s.reward_debt,
        claim_payout(g, s, now) is Some <==> s.unclaimed_rewards + ((s.amount * index) / 1_000_000_000_000) as u64
            - s.reward_debt > 0,
{
}

/// Closing a stake goes through whenever none of its arithmetic overflows (as
/// for a claim, plus the event's sum of the payout and the returned units). It
/// then pays out everything the stake is owed: its unclaimed rewards plus the
/// share of the new index beyond the debt, which is what a claim at the same
/// moment would mint.
pub proof fn law_close_goes_through_unless_overflow(g: GlobalState, s: Stake, now: i64, dt: int, index: int)
    requires
        i64::MIN <= now - g.last_update_time <= i64::MAX,
        dt == (if now >= g.last_update_time {
            now - g.last_update_time
        } else {
            now - g.last_update_time + 0x1_0000_0000_0000_0000
        }),
        g.total_staked > 0 ==> dt * g.reward_rate <= u64::MAX,
        index == (if g.total_staked > 0 {
            g.acc_reward_per_share + dt * g.reward_rate * 1_000_000_000_000 / (g.total_staked as int)
        } else {
            g.acc_reward_per_share as int
        }),
        index <= u128::MAX,
        s.amount * index <= u128::MAX,
        s.reward_debt <= ((s.amount * index) / 1_000_000_000_000) as u64,
        s.unclaimed_rewards + ((s.amount * index) / 1_000_000_000_000) as u64 - s.reward_debt + s.amount
            <= u64::MAX,
    ensures
        can_close(g, s, now),
        updated_pool(g, now).acc_reward_per_share == index,
        close_rewards(g, s, now) == s.unclaimed_rewards + ((s.amount * index) / 1_000_000_000_000) as u64
            - s.reward_debt,
        close_rewards(g, s, now) == paid(claim_payout(g, s, now)),
{
}

/// A deposit goes through whenever none of its arithmetic overflows: the pool
/// update (as for a claim), the new total, and for a stake that holds units the
/// settlement at the new index, the new amount and the 128-bit product of the
/// new amount and the index; for a stake that holds none, the product of the
/// deposit and the index.
pub proof fn law_deposit_goes_through_unless_overflow(
    g: GlobalState,
    s: Stake,
    amount: u64,
    now: i64,
    dt: int,
    index: int,
)
    requires
        i64::MIN <= now - g.last_update_time <= i64::MAX,
        dt == (if now >= g.last_update_time {
            now - g.last_update_time
        } else {
            now - g.last_update_time + 0x1_0000_0000_0000_0000
        }),
        g.total_staked > 0 ==> dt * g.reward_rate <= u64::MAX,
        index == (if g.total_staked > 0 {
            g.acc_reward_per_share + dt * g.reward_rate * 1_000_000_000_000 / (g.total_staked as int)
        } else {
            g.acc_reward_per_share as int
        }),
        index <= u128::MAX,
        g.total_staked + amount <= u64::MAX,
        s.amount > 0 ==> {
            &&& s.amount * index <= u128::MAX
            &&& s.reward_debt <= ((s.amount * index) / 1_000_000_000_000) as u64
            &&& s.unclaimed_rewards + ((s.amount * index) / 1_000_000_000_000) as u64 - s.reward_debt <= u64::MAX
            &&& s.amount + amount <= u64::MAX
            &&& (s.amount + amount) * index <= u128::MAX
        },
        s.amount == 0 ==> amount * index <= u128::MAX,
    ensures
        can_deposit(g, s, amount, now),
        updated_pool(g, now).acc_reward_per_share == index,
{
}

} // verus!
