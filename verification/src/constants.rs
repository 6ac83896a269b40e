//! Constants of the program.
use vstd::prelude::*;

verus! {

/// Bytes that the account framework puts in front of each account's data.
pub const DISCRIMINATOR: usize = 8;

/// Scale of the reward index: the index counts reward units per staked unit,
/// times `PRECISION`.
pub const PRECISION: u128 = 1_000_000_000_000;

} // verus!
