//! Creating the pool.
use vstd::prelude::*;
use anchor_lang::prelude::Pubkey;
use crate::states::global_state::GlobalState;

verus! {

/// The state of a new pool: nothing staked, a zero reward index, last updated
/// at time 0, emitting `reward_rate` units per second.
pub fn initialize(authority: Pubkey, mint: Pubkey, vault: Pubkey, reward_rate: u64, bump: u8) -> (g: GlobalState)
    ensures
        g == (GlobalState {
            authority,
            mint,
            vault,
            total_staked: 0,
            acc_reward_per_share: 0,
            last_update_time: 0,
            reward_rate,
            bump,
        }),
{
    GlobalState {
        authority,
        mint,
        vault,
        total_staked: 0,
        acc_reward_per_share: 0,
        last_update_time: 0,
        reward_rate,
        bump,
    }
}

} // verus!
