//! The pool.
use vstd::prelude::*;
use anchor_lang::prelude::Pubkey;

verus! {

/// State of the staking pool.
#[derive(Clone, Copy, Debug, PartialEq, Eq)]
pub struct GlobalState {
    /// The account that created the pool and may mint rewards.
    pub authority: Pubkey,
    /// The mint of the staked token, which is also the reward token.
    pub mint: Pubkey,
    /// The token account that holds the staked tokens.
    pub vault: Pubkey,
    /// Sum of the amounts of all stakes.
    pub total_staked: u64,
    /// Cumulative rewards per staked unit, scaled by `PRECISION`.
    pub acc_reward_per_share: u128,
    /// Clock reading (Unix seconds) at which the index was last brought up to date.
    pub last_update_time: i64,
    /// Reward units emitted per second, shared among all stakes.
    pub reward_rate: u64,
    /// Bump seed of the pool's program-derived address.
    pub bump: u8,
}

} // verus!
