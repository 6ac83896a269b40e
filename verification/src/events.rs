//! Events of the program.
use vstd::prelude::*;
use anchor_lang::prelude::Pubkey;

verus! {

/// A deposit into a stake.
#[derive(Clone, Copy, Debug, PartialEq, Eq)]
pub struct DepositSPLEvent {
    pub user: Pubkey,
    pub user_token_account: Pubkey,
    pub stake_account: Pubkey,
    pub amount: u64,
}

/// A payout of a stake's rewards.
#[derive(Clone, Copy, Debug, PartialEq, Eq)]
pub struct ClaimRewardsSPLEvent {
    pub user: Pubkey,
    pub user_token_account: Pubkey,
    pub stake_account: Pubkey,
    pub amount: u64,
}

/// A stake closed: its tokens and rewards paid out.
#[derive(Clone, Copy, Debug, PartialEq, Eq)]
pub struct ClosePositionSPLEvent {
    pub user: Pubkey,
    pub user_token_account: Pubkey,
    pub closed_account: Pubkey,
    /// The returned stake plus the paid rewards.
    pub amount: u64,
}

/// Fees withdrawn by the pool's authority.
#[derive(Clone, Copy, Debug, PartialEq, Eq)]
pub struct WithdrawFeesEvent {
    pub authority: Pubkey,
    pub authority_token_account: Pubkey,
    pub amount: u64,
}

} // verus!
