//! Reward accounting of a staking pool for SPL tokens.
//!
//! Depositors lock tokens in a shared vault; the pool emits `reward_rate` reward
//! tokens per second, shared among all stakes in proportion to their size. The
//! pool keeps a cumulative reward index (rewards per staked token, scaled by
//! `PRECISION`); each stake remembers the index it last settled at through its
//! `reward_debt`.
//!
//! This crate holds the state of the pool and of each stake, and the state
//! transitions of the program's instructions. Reading the clock, moving and
//! minting tokens and emitting events are left to the caller, which hands the
//! clock reading in and performs the transfers that the transitions return.
//!
//! The instructions are `initialize`, `deposit_spl`, `claim_rewards_spl` and
//! `close_position_spl`. There is no instruction for withdrawing fees: the pool
//! records no fee balance that one could withdraw, and no error for an empty
//! one, so `WithdrawFeesEvent` is only declared.
use vstd::prelude::*;

pub mod constants;
pub mod errors;
pub mod events;
pub mod instructions;
pub mod keys;
pub mod laws;
pub mod rewards;
pub mod states;

pub use errors::DappError;
pub use events::{ClaimRewardsSPLEvent, ClosePositionSPLEvent, DepositSPLEvent, WithdrawFeesEvent};
pub use instructions::claim_rewards_spl::claim_rewards_spl;
pub use instructions::close_position_spl::{close_position_spl, ClosePosition};
pub use instructions::deposit_spl::deposit_spl;
pub use instructions::initialize::initialize;
pub use states::global_state::GlobalState;
pub use states::stake::Stake;

verus! {

} // verus!
