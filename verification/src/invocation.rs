//! What the Soroban host tells a contract about the invocation it serves.
use vstd::prelude::*;
use crate::address::Addr;

verus! {

/// The host-side facts of one contract invocation: the addresses whose
/// authorisation the invocation carries, and the current ledger.
pub struct Invocation {
    /// Addresses that authorised this invocation (what `require_auth` checks).
    pub signers: Vec<Addr>,
    /// Current ledger sequence number.
    pub ledger: u32,
    /// Current ledger close time (UNIX seconds).
    pub timestamp: u64,
}

/// Why an invocation failed: an error returned by the contract, or a missing
/// authorisation that made the host abort the call.
#[derive(Debug, PartialEq, Eq)]
pub enum InvokeError<E> {
    Contract(E),
    MissingAuth(Addr),
}

impl Invocation {
    /// `who` authorised this invocation.
    pub open spec fn authorizes(&self, who: Addr) -> bool {
        self.signers@.contains(who)
    }

    /// Whether `who` authorised this invocation.
    pub fn has_authorized(&self, who: Addr) -> (ok: bool)
        ensures
            ok == self.authorizes(who),
    {
        let mut i: usize = 0;
        while i < self.signers.len()
            invariant
                0 <= i <= self.signers@.len(),
                forall|j: int| 0 <= j < i ==> self.signers@[j] != who,
            decreases self.signers@.len() - i,
        {
            if self.signers[i] == who {
                return true;
            }
            i += 1;
        }
        false
    }
}

} // verus!
