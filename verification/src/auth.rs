//! Authorisation and quorum rules shared by the contracts.
use vstd::prelude::*;
use crate::address::Addr;
use crate::errors::ContractError;

verus! {

/// Signatures needed to act on a value: the full threshold when there is no
/// high-value limit (a limit of 0) or the value is above the limit, and a
/// single signature otherwise.
pub open spec fn required_threshold_spec(full_threshold: u32, high_value_limit: i128, value: i128) -> u32 {
    if high_value_limit == 0 || value > high_value_limit {
        full_threshold
    } else {
        1
    }
}

/// Number of signatures required for `value`.
pub fn required_threshold(full_threshold: u32, high_value_limit: i128, value: i128) -> (r: u32)
    ensures
        r == required_threshold_spec(full_threshold, high_value_limit, value),
{
    if high_value_limit == 0 || value > high_value_limit {
        full_threshold
    } else {
        1
    }
}

/// The outcome of checking `sig_count` signatures against the quorum for `value`.
pub open spec fn verify_threshold_spec(
    sig_count: u32,
    full_threshold: u32,
    high_value_limit: i128,
    value: i128,
) -> Result<(), ContractError> {
    if sig_count >= required_threshold_spec(full_threshold, high_value_limit, value) {
        Ok(())
    } else {
        Err(ContractError::BelowThreshold)
    }
}

/// Checks that `sig_count` signatures meet the quorum for `value`.
pub fn verify_threshold(sig_count: u32, full_threshold: u32, high_value_limit: i128, value: i128) -> (r: Result<
    (),
    ContractError,
>)
    ensures
        r == verify_threshold_spec(sig_count, full_threshold, high_value_limit, value),
{
    if sig_count >= required_threshold(full_threshold, high_value_limit, value) {
        Ok(())
    } else {
        Err(ContractError::BelowThreshold)
    }
}

/// The outcome of checking `caller` against the stored admin.
pub open spec fn assert_is_admin_spec(stored_admin: Option<Addr>, caller: Addr) -> Result<(), ContractError> {
    match stored_admin {
        None => Err(ContractError::NotFound),
        Some(admin) => if admin == caller {
            Ok(())
        } else {
            Err(ContractError::Unauthorized)
        },
    }
}

/// Checks that `caller` is the stored admin.
pub fn assert_is_admin(stored_admin: Option<Addr>, caller: Addr) -> (r: Result<(), ContractError>)
    ensures
        r == assert_is_admin_spec(stored_admin, caller),
{
    match stored_admin {
        None => Err(ContractError::NotFound),
        Some(admin) => if admin == caller {
            Ok(())
        } else {
            Err(ContractError::Unauthorized)
        },
    }
}

/// Whether `who` occurs in `list`.
pub fn contains_addr(list: &Vec<Addr>, who: Addr) -> (r: bool)
    ensures
        r == list@.contains(who),
{
    let mut i: usize = 0;
    while i < list.len()
        invariant
            0 <= i <= list@.len(),
            forall|j: int| 0 <= j < i ==> list@[j] != who,
        decreases list@.len() - i,
    {
        if list[i] == who {
            return true;
        }
        i += 1;
    }
    false
}

/// The outcome of checking `caller` against the stored signer list.
pub open spec fn assert_is_signer_spec(signers: Option<Seq<Addr>>, caller: Addr) -> Result<(), ContractError> {
    match signers {
        None => Err(ContractError::NotFound),
        Some(list) => if list.contains(caller) {
            Ok(())
        } else {
            Err(ContractError::Unauthorized)
        },
    }
}

/// Checks that `caller` is one of the stored signers.
pub fn assert_is_signer(signers: Option<&Vec<Addr>>, caller: Addr) -> (r: Result<(), ContractError>)
    ensures
        r == assert_is_signer_spec(
            match signers {
                None => None,
                Some(l) => Some(l@),
            },
            caller,
        ),
{
    match signers {
        None => Err(ContractError::NotFound),
        Some(list) => if contains_addr(list, caller) {
            Ok(())
        } else {
            Err(ContractError::Unauthorized)
        },
    }
}

/// Law: the quorum for a value is either one signature or the full threshold,
/// and it never exceeds a full threshold of at least one.
pub proof fn lemma_required_threshold_bounds(full_threshold: u32, high_value_limit: i128, value: i128)
    requires
        full_threshold >= 1,
    ensures
        1 <= required_threshold_spec(full_threshold, high_value_limit, value) <= full_threshold,
{
}

/// Law: a larger value never needs fewer signatures (for a full threshold of at
/// least one).
pub proof fn lemma_required_threshold_monotone(full_threshold: u32, high_value_limit: i128, v1: i128, v2: i128)
    requires
        full_threshold >= 1,
        v1 <= v2,
    ensures
        required_threshold_spec(full_threshold, high_value_limit, v1) <= required_threshold_spec(
            full_threshold,
            high_value_limit,
            v2,
        ),
{
}

/// Law: meeting the full threshold always satisfies the quorum, whatever the value.
pub proof fn lemma_full_threshold_suffices(sig_count: u32, full_threshold: u32, high_value_limit: i128, value: i128)
    requires
        full_threshold >= 1,
        sig_count >= full_threshold,
    ensures
        verify_threshold_spec(sig_count, full_threshold, high_value_limit, value) is Ok,
{
}

} // verus!
