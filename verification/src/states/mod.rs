//! Accounts that the program owns.
pub mod global_state;
pub mod stake;
