//! The program's instructions, as state transitions.
pub mod claim_rewards_spl;
pub mod close_position_spl;
pub mod deposit_spl;
pub mod initialize;
