//! Errors of the program.
use vstd::prelude::*;

verus! {

/// Errors that the staking program reports.
#[derive(PartialEq, Eq, Structural, Clone, Copy, Debug)]
pub enum DappError {
    /// Insufficient stake to withdraw the requested amount.
    InsufficientStake,
}

} // verus!
