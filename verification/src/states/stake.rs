//! One depositor's stake.
use vstd::prelude::*;
use anchor_lang::prelude::Pubkey;

verus! {

/// State of one depositor's stake.
#[derive(Clone, Copy, Debug, PartialEq, Eq)]
pub struct Stake {
    /// The depositor.
    pub owner: Pubkey,
    /// Staked units.
    pub amount: u64,
    /// Clock reading at which the stake was opened.
    pub start_time: i64,
    /// Clock reading at which the stake was last settled.
    pub last_update_time: i64,
    /// The stake's share of the reward index at its last settlement:
    /// `amount * index / PRECISION`, cut to 64 bits.
    pub reward_debt: u64,
    /// Rewards settled but not yet paid out.
    pub unclaimed_rewards: u64,
    /// Bump seed of the stake's program-derived address.
    pub bump: u8,
}

} // verus!
