//! Verified core of the Stellar-Spend Soroban contracts: the escrow custody
//! state machine, the fee manager, the multi-signature settlement authority,
//! the treasury and the shared token/authorisation helpers.
//!
//! Each contract is modelled as a value that holds what the contract keeps in
//! its instance storage, and each entry point is a method whose contract is
//! stated over a mathematical model of that storage.

use vstd::prelude::*;

pub mod address;
pub mod auth;
pub mod errors;
pub mod escrow;
pub mod fee_manager;
pub mod host;
pub mod invocation;
pub mod multisig;
pub mod table;
pub mod token;
pub mod treasury;

verus! {

/// Viewing a sequence element by element commutes with pushing onto it.
pub proof fn lemma_view_push<T: View>(s: Seq<T>, e: T)
    ensures
        s.push(e).map_values(|x: T| x@) == s.map_values(|x: T| x@).push(e@),
{
    assert(s.push(e).map_values(|x: T| x@) =~= s.map_values(|x: T| x@).push(e@));
}

} // verus!
