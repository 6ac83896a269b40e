use anchor_lang::prelude::Pubkey;
use staking_spl::constants::PRECISION;
use staking_spl::instructions::claim_rewards_spl::claim_rewards_spl_fits;
use staking_spl::instructions::close_position_spl::close_position_spl_fits;
use staking_spl::instructions::deposit_spl::deposit_spl_fits;
use staking_spl::rewards::{accrued_rewards, pending_rewards, pool_update_fits, update_pool};
use staking_spl::{
    claim_rewards_spl, close_position_spl, deposit_spl, initialize, ClosePosition,
    ClosePositionSPLEvent, GlobalState, Stake,
};

fn key(b: u8) -> Pubkey {
    Pubkey::new_from_array([b; 32])
}

fn pool(total_staked: u64, acc: u128, last: i64, rate: u64) -> GlobalState {
    GlobalState {
        authority: key(1),
        mint: key(2),
        vault: key(3),
        total_staked,
        acc_reward_per_share: acc,
        last_update_time: last,
        reward_rate: rate,
        bump: 254,
    }
}

fn empty_stake() -> Stake {
    Stake {
        owner: Pubkey::default(),
        amount: 0,
        start_time: 0,
        last_update_time: 0,
        reward_debt: 0,
        unclaimed_rewards: 0,
        bump: 0,
    }
}

/// What a stake is owed at `index`: its unclaimed rewards plus its pending ones.
fn owed(stake: &Stake, index: u128) -> u64 {
    stake.unclaimed_rewards + pending_rewards(stake, index)
}

#[test]
fn initialize_starts_an_empty_pool() {
    let g = initialize(key(1), key(2), key(3), 10, 254);
    assert_eq!(g, pool(0, 0, 0, 10));
}

#[test]
fn update_credits_rewards_per_staked_unit() {
    let mut g = pool(100, 0, 0, 10);
    assert!(pool_update_fits(&g, 5));
    update_pool(&mut g, 5);
    // 5 s * 10 units/s = 50 units over 100 staked: 0.5 per unit.
    assert_eq!(g.acc_reward_per_share, 500_000_000_000);
    assert_eq!(g.last_update_time, 5);
}

#[test]
fn update_rounds_the_increment_down() {
    let mut g = pool(3, 0, 0, 1);
    update_pool(&mut g, 1);
    assert_eq!(g.acc_reward_per_share, 333_333_333_333);
    // The pool never hands out more than it emitted.
    assert!(g.acc_reward_per_share * 3 <= PRECISION);
}

#[test]
fn update_with_nothing_staked_only_moves_the_clock() {
    let mut g = pool(0, 7, 100, 10);
    update_pool(&mut g, 50);
    assert_eq!(g, pool(0, 7, 50, 10));
}

#[test]
fn update_at_the_same_moment_changes_nothing() {
    let mut g = pool(100, 42, 5, 10);
    update_pool(&mut g, 5);
    assert_eq!(g, pool(100, 42, 5, 10));
}

#[test]
fn a_clock_that_went_back_counts_as_a_huge_interval() {
    // One second backwards is read as 2^64 - 1 seconds.
    let mut g = pool(1_000_000_000_000, 0, 10, 1);
    assert!(pool_update_fits(&g, 9));
    update_pool(&mut g, 9);
    assert_eq!(g.acc_reward_per_share, u64::MAX as u128);
    assert_eq!(g.last_update_time, 9);
    // With a larger rate the emitted rewards no longer fit in 64 bits.
    assert!(!pool_update_fits(&pool(1, 0, 10, 2), 9));
}

#[test]
fn accrued_rewards_round_down() {
    assert_eq!(accrued_rewards(50, 500_000_000_000), 25);
    assert_eq!(accrued_rewards(3, 333_333_333_333), 0);
    assert_eq!(accrued_rewards(0, u128::MAX), 0);
}

#[test]
fn accrued_rewards_are_cut_to_64_bits() {
    // 2^64 * PRECISION / PRECISION = 2^64, which reads as 0 in 64 bits.
    let index = (1u128 << 64) * PRECISION;
    assert_eq!(accrued_rewards(1, index), 0);
    assert_eq!(accrued_rewards(1, index + PRECISION), 1);
}

#[test]
fn deposit_opens_a_fresh_stake() {
    let mut g = pool(100, 0, 0, 10);
    let mut s = empty_stake();
    assert!(deposit_spl_fits(&g, &s, 50, 5));
    deposit_spl(&mut g, &mut s, key(9), 50, 3, 5);
    assert_eq!(g, pool(150, 500_000_000_000, 5, 10));
    assert_eq!(
        s,
        Stake {
            owner: key(9),
            amount: 50,
            start_time: 5,
            last_update_time: 5,
            reward_debt: 25,
            unclaimed_rewards: 0,
            bump: 3,
        }
    );
}

#[test]
fn deposit_into_a_held_stake_settles_its_rewards() {
    let mut g = pool(150, 500_000_000_000, 5, 10);
    let mut s = Stake {
        owner: key(9),
        amount: 50,
        start_time: 5,
        last_update_time: 5,
        reward_debt: 25,
        unclaimed_rewards: 0,
        bump: 3,
    };
    deposit_spl(&mut g, &mut s, key(8), 30, 7, 15);
    // 10 s * 10 units/s over 150 staked.
    assert_eq!(g, pool(180, 1_166_666_666_666, 15, 10));
    // pending = 50 * 1.166... - 25 = 58 - 25 = 33; new debt = 80 * 1.166... = 93.
    assert_eq!(
        s,
        Stake {
            owner: key(9),
            amount: 80,
            start_time: 5,
            last_update_time: 15,
            reward_debt: 93,
            unclaimed_rewards: 33,
            bump: 3,
        }
    );
}

#[test]
fn deposit_keeps_what_a_stake_is_owed() {
    let mut g = pool(150, 500_000_000_000, 5, 10);
    let mut s = Stake {
        owner: key(9),
        amount: 50,
        start_time: 5,
        last_update_time: 5,
        reward_debt: 25,
        unclaimed_rewards: 4,
        bump: 3,
    };
    let before = s;
    deposit_spl(&mut g, &mut s, key(9), 30, 3, 15);
    assert_eq!(owed(&s, g.acc_reward_per_share), owed(&before, g.acc_reward_per_share));
    assert_eq!(owed(&s, g.acc_reward_per_share), 37);
}

#[test]
fn deposit_into_an_empty_stake_forgets_its_leftovers() {
    let mut g = pool(0, 0, 0, 10);
    let mut s = Stake { unclaimed_rewards: 5, reward_debt: 2, ..empty_stake() };
    deposit_spl(&mut g, &mut s, key(9), 10, 1, 3);
    assert_eq!(s.unclaimed_rewards, 0);
    assert_eq!(s.reward_debt, 0);
    assert_eq!(g, pool(10, 0, 3, 10));
}

#[test]
fn deposit_that_would_overflow_does_not_fit() {
    let g = pool(u64::MAX, 0, 0, 0);
    assert!(!deposit_spl_fits(&g, &empty_stake(), 1, 0));
    let g = pool(0, 0, 0, 0);
    let s = Stake { amount: u64::MAX, ..empty_stake() };
    assert!(!deposit_spl_fits(&g, &s, 1, 0));
    assert!(deposit_spl_fits(&g, &s, 0, 0));
}

#[test]
fn claim_pays_everything_owed() {
    let mut g = pool(180, 1_166_666_666_666, 15, 10);
    let mut s = Stake {
        owner: key(9),
        amount: 80,
        start_time: 5,
        last_update_time: 15,
        reward_debt: 93,
        unclaimed_rewards: 33,
        bump: 3,
    };
    assert!(claim_rewards_spl_fits(&g, &s, 15));
    let minted = claim_rewards_spl(&mut g, &mut s, 15);
    assert_eq!(minted, Some(33));
    assert_eq!(s.unclaimed_rewards, 0);
    assert_eq!(s.reward_debt, 93);
    assert_eq!(s.last_update_time, 15);
    assert_eq!(g, pool(180, 1_166_666_666_666, 15, 10));
}

#[test]
fn claim_after_time_passes_includes_new_rewards() {
    let mut g = pool(0, 0, 0, 10);
    let mut s = empty_stake();
    deposit_spl(&mut g, &mut s, key(9), 100, 1, 0);
    let minted = claim_rewards_spl(&mut g, &mut s, 10);
    // The only stake gets all 100 emitted units.
    assert_eq!(minted, Some(100));
    assert_eq!(s.reward_debt, 100);
    assert_eq!(g.acc_reward_per_share, 1_000_000_000_000);
}

#[test]
fn second_claim_at_the_same_moment_pays_nothing() {
    let mut g = pool(0, 0, 0, 10);
    let mut s = empty_stake();
    deposit_spl(&mut g, &mut s, key(9), 100, 1, 0);
    assert_eq!(claim_rewards_spl(&mut g, &mut s, 7), Some(70));
    assert!(claim_rewards_spl_fits(&g, &s, 7));
    assert_eq!(claim_rewards_spl(&mut g, &mut s, 7), None);
    assert_eq!(s.unclaimed_rewards, 0);
}

#[test]
fn claim_with_a_debt_above_the_share_does_not_fit() {
    let g = pool(10, 0, 0, 0);
    let s = Stake { amount: 10, reward_debt: 1, ..empty_stake() };
    assert!(!claim_rewards_spl_fits(&g, &s, 0));
}

#[test]
fn close_returns_the_stake_and_pays_the_rewards() {
    let mut g = pool(180, 1_166_666_666_666, 15, 10);
    let mut s = Stake {
        owner: key(9),
        amount: 80,
        start_time: 5,
        last_update_time: 15,
        reward_debt: 93,
        unclaimed_rewards: 0,
        bump: 3,
    };
    assert!(close_position_spl_fits(&g, &s, 25));
    let r = close_position_spl(&mut g, &mut s, key(9), key(10), key(11), 25);
    // 10 s * 10 units/s over 180 staked; pending = 80 * 1.722... - 93 = 137 - 93 = 44.
    assert_eq!(
        r,
        ClosePosition {
            returned: 80,
            minted: Some(44),
            event: ClosePositionSPLEvent {
                user: key(9),
                user_token_account: key(10),
                closed_account: key(11),
                amount: 124,
            },
        }
    );
    assert_eq!(g, pool(100, 1_722_222_222_221, 25, 10));
    assert_eq!(s.unclaimed_rewards, 0);
    assert_eq!(s.amount, 80);
}

#[test]
fn close_with_nothing_owed_mints_nothing() {
    let mut g = pool(100, 0, 0, 0);
    let mut s = Stake { owner: key(9), amount: 40, ..empty_stake() };
    let r = close_position_spl(&mut g, &mut s, key(9), key(10), key(11), 1);
    assert_eq!(r.returned, 40);
    assert_eq!(r.minted, None);
    assert_eq!(r.event.amount, 40);
    assert_eq!(g.total_staked, 60);
}

#[test]
fn close_takes_the_total_down_to_zero_at_most() {
    let mut g = pool(10, 0, 0, 0);
    let mut s = Stake { amount: 40, ..empty_stake() };
    let r = close_position_spl(&mut g, &mut s, key(9), key(10), key(11), 0);
    assert_eq!(g.total_staked, 0);
    assert_eq!(r.returned, 40);
}

#[test]
fn close_whose_payout_overflows_does_not_fit() {
    let g = pool(10, 0, 0, 0);
    let s = Stake { amount: 40, unclaimed_rewards: u64::MAX, ..empty_stake() };
    assert!(!close_position_spl_fits(&g, &s, 0));
}

#[test]
fn open_then_close_at_the_same_moment_is_a_round_trip() {
    let mut g = pool(100, 123_456_789, 0, 10);
    let mut s = empty_stake();
    deposit_spl(&mut g, &mut s, key(9), 60, 2, 4);
    let total_after_update = g.total_staked - 60;
    let r = close_position_spl(&mut g, &mut s, key(9), key(10), key(11), 4);
    assert_eq!(r.returned, 60);
    assert_eq!(r.minted, None);
    assert_eq!(g.total_staked, total_after_update);
    assert_eq!(g.total_staked, 100);
}

#[test]
fn index_never_decreases_over_a_session() {
    let mut g = pool(0, 0, 0, 3);
    let mut a = empty_stake();
    let mut b = empty_stake();
    let mut last = g.acc_reward_per_share;
    deposit_spl(&mut g, &mut a, key(9), 10, 1, 1);
    assert!(g.acc_reward_per_share >= last);
    last = g.acc_reward_per_share;
    deposit_spl(&mut g, &mut b, key(8), 30, 1, 4);
    assert!(g.acc_reward_per_share >= last);
    last = g.acc_reward_per_share;
    claim_rewards_spl(&mut g, &mut a, 9);
    assert!(g.acc_reward_per_share >= last);
    last = g.acc_reward_per_share;
    close_position_spl(&mut g, &mut b, key(8), key(10), key(11), 12);
    assert!(g.acc_reward_per_share >= last);
    assert_eq!(g.total_staked, 10);
}

#[test]
fn pending_rewards_follow_the_growth_of_the_index() {
    // Settled at index 1/3: debt 0. At index 2/3 the share of the growth is
    // 3 * 1/3 = 0.999999999999, rounded down to 0; the stake earns 0 or 1.
    let s = Stake {
        amount: 3,
        reward_debt: accrued_rewards(3, 333_333_333_333),
        ..empty_stake()
    };
    assert_eq!(s.reward_debt, 0);
    assert_eq!(pending_rewards(&s, 666_666_666_666), 1);
    // Whole multiples give the exact share.
    let s = Stake { amount: 7, reward_debt: accrued_rewards(7, PRECISION), ..empty_stake() };
    assert_eq!(pending_rewards(&s, 4 * PRECISION), 21);
}

#[test]
fn a_split_claim_pays_at_most_one_unit_less() {
    let start = pool(3, 666_666_666_667, 0, 2);
    let stake = Stake { owner: key(9), amount: 1, ..empty_stake() };

    let (mut g, mut s) = (start, stake);
    let first = claim_rewards_spl(&mut g, &mut s, 1);
    let second = claim_rewards_spl(&mut g, &mut s, 2);
    assert_eq!(g.acc_reward_per_share, 1_999_999_999_999);
    assert_eq!((first, second), (Some(1), None));

    let (mut g, mut s) = (start, stake);
    let once = claim_rewards_spl(&mut g, &mut s, 2);
    assert_eq!(g.acc_reward_per_share, 2_000_000_000_000);
    assert_eq!(once, Some(2));
}

#[test]
fn the_total_follows_the_open_stakes() {
    let mut g = initialize(key(1), key(2), key(3), 5, 254);
    let mut a = empty_stake();
    let mut b = empty_stake();
    deposit_spl(&mut g, &mut a, key(9), 40, 1, 10);
    deposit_spl(&mut g, &mut b, key(8), 25, 1, 20);
    deposit_spl(&mut g, &mut a, key(9), 5, 1, 30);
    claim_rewards_spl(&mut g, &mut b, 35);
    assert_eq!(g.total_staked, a.amount + b.amount);
    close_position_spl(&mut g, &mut a, key(9), key(10), key(11), 40);
    assert_eq!(g.total_staked, b.amount);
}
