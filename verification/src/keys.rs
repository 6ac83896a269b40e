//! Account addresses.
use vstd::prelude::*;

verus! {

/// Declares `anchor_lang::prelude::Pubkey` (the Solana account address) so
/// that the state can hold addresses. Nothing is claimed of the type: the
/// library only stores and copies addresses and never looks inside one.
#[verifier::external_type_specification]
#[verifier::external_body]
pub struct ExPubkey(anchor_lang::prelude::Pubkey);

} // verus!
