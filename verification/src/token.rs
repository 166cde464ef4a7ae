//! Token transfers, balances and allowances through a Stellar Asset Contract.
//!
//! The call into the token contract is made by the caller (it is a call into
//! another contract on the host), through the closure `invoke`. These
//! functions check the request, hand `invoke` exactly the call to make (the
//! token contract, the method and its arguments, as a [`TokenCall`]), and map
//! the token contract's reply onto [`ContractError`].
use vstd::prelude::*;
use crate::address::Addr;
use crate::errors::ContractError;

verus! {

/// Error code of the Stellar Asset Contract for a missing account.
pub const SAC_ACCOUNT_MISSING: u32 = 6;

/// Error code of the Stellar Asset Contract for a caller that lacks the right.
pub const SAC_UNAUTHORIZED: u32 = 4;

/// Error code of the Stellar Asset Contract for an insufficient balance.
pub const SAC_BALANCE_ERROR: u32 = 10;

/// Error code of the Stellar Asset Contract for a missing trustline.
pub const SAC_TRUSTLINE_MISSING: u32 = 13;

/// One call into a token contract: the contract, the method (the variant) and
/// the method's arguments, in the order the method takes them.
#[derive(Copy, Clone, Debug, PartialEq, Eq, Structural)]
pub enum TokenCall {
    /// `transfer(from, to, amount)`.
    Transfer { token: Addr, from: Addr, to: Addr, amount: i128 },
    /// `balance(id)`.
    Balance { token: Addr, id: Addr },
    /// `approve(from, spender, amount, expiration_ledger)`.
    Approve { token: Addr, from: Addr, spender: Addr, amount: i128, expiration_ledger: u32 },
    /// `allowance(from, spender)`.
    Allowance { token: Addr, from: Addr, spender: Addr },
}

/// Why the token contract refused a call.
#[derive(Copy, Clone, Debug, PartialEq, Eq, Structural)]
pub enum TokenFailure {
    /// The amount exceeds the sender's balance.
    InsufficientBalance,
    /// The address whose authorisation the call needs did not give it.
    NotAuthorized,
    /// The account has no entry (no account or no trustline) for this token.
    MissingEntry,
    /// Any other failure of the call.
    Other,
}

/// The kind of a host error raised by a token call: `auth_error` when the
/// error is of the host's authorisation type, and the contract error code when
/// the token contract returned one.
pub open spec fn failure_kind_spec(auth_error: bool, contract_code: Option<u32>) -> TokenFailure {
    if auth_error {
        TokenFailure::NotAuthorized
    } else {
        match contract_code {
            Some(c) => if c == SAC_UNAUTHORIZED {
                TokenFailure::NotAuthorized
            } else if c == SAC_BALANCE_ERROR {
                TokenFailure::InsufficientBalance
            } else if c == SAC_ACCOUNT_MISSING || c == SAC_TRUSTLINE_MISSING {
                TokenFailure::MissingEntry
            } else {
                TokenFailure::Other
            },
            None => TokenFailure::Other,
        }
    }
}

/// What `transfer` returns for the token contract's reply.
pub open spec fn transfer_outcome(reply: Result<(), TokenFailure>) -> Result<(), ContractError> {
    match reply {
        Ok(()) => Ok(()),
        Err(TokenFailure::InsufficientBalance) => Err(ContractError::InvalidAmount),
        Err(TokenFailure::NotAuthorized) => Err(ContractError::Unauthorized),
        Err(_) => Err(ContractError::ContractFault),
    }
}

/// What `approve` returns for the token contract's reply.
pub open spec fn approve_outcome(reply: Result<(), TokenFailure>) -> Result<(), ContractError> {
    match reply {
        Ok(()) => Ok(()),
        Err(TokenFailure::NotAuthorized) => Err(ContractError::Unauthorized),
        Err(_) => Err(ContractError::ContractFault),
    }
}

/// What `balance` and `allowance` return for the token contract's reply.
pub open spec fn query_outcome<T>(reply: Result<T, TokenFailure>) -> Result<T, ContractError> {
    match reply {
        Ok(v) => Ok(v),
        Err(TokenFailure::MissingEntry) => Err(ContractError::NotFound),
        Err(_) => Err(ContractError::ContractFault),
    }
}

impl TokenFailure {
    /// Classify a host error raised by a token call (see [`failure_kind_spec`]).
    pub fn from_host_error(auth_error: bool, contract_code: Option<u32>) -> (f: TokenFailure)
        ensures
            f == failure_kind_spec(auth_error, contract_code),
    {
        if auth_error {
            return TokenFailure::NotAuthorized;
        }
        match contract_code {
            Some(c) => if c == SAC_UNAUTHORIZED {
                TokenFailure::NotAuthorized
            } else if c == SAC_BALANCE_ERROR {
                TokenFailure::InsufficientBalance
            } else if c == SAC_ACCOUNT_MISSING || c == SAC_TRUSTLINE_MISSING {
                TokenFailure::MissingEntry
            } else {
                TokenFailure::Other
            },
            None => TokenFailure::Other,
        }
    }
}

fn query_result<T>(reply: Result<T, TokenFailure>) -> (r: Result<T, ContractError>)
    ensures
        r == query_outcome(reply),
{
    match reply {
        Ok(v) => Ok(v),
        Err(TokenFailure::MissingEntry) => Err(ContractError::NotFound),
        Err(_) => Err(ContractError::ContractFault),
    }
}

/// Transfer `amount` of `token` from `from` to `to`.
///
/// A non-positive amount is refused with `InvalidAmount` and nothing is
/// invoked. Otherwise `invoke` is called once, with the token contract's
/// `transfer(from, to, amount)`; an insufficient balance becomes
/// `InvalidAmount`, a missing authorisation of `from` becomes `Unauthorized`
/// and any other failure `ContractFault`.
pub fn transfer<F: FnOnce(TokenCall) -> Result<(), TokenFailure>>(
    token: Addr,
    from: Addr,
    to: Addr,
    amount: i128,
    invoke: F,
) -> (r: Result<(), ContractError>)
    requires
        amount > 0 ==> call_requires(invoke, ((TokenCall::Transfer { token, from, to, amount }),)),
    ensures
        amount <= 0 ==> r == Err::<(), ContractError>(ContractError::InvalidAmount),
        amount > 0 ==> exists|reply: Result<(), TokenFailure>|
            #[trigger] call_ensures(invoke, ((TokenCall::Transfer { token, from, to, amount }),), reply) && r
                == transfer_outcome(reply),
{
    if amount <= 0 {
        return Err(ContractError::InvalidAmount);
    }
    let reply = invoke(TokenCall::Transfer { token, from, to, amount });
    match reply {
        Ok(u) => Ok(u),
        Err(TokenFailure::InsufficientBalance) => Err(ContractError::InvalidAmount),
        Err(TokenFailure::NotAuthorized) => Err(ContractError::Unauthorized),
        Err(_) => Err(ContractError::ContractFault),
    }
}

/// Balance of `account` for `token`.
///
/// `invoke` is called once, with the token contract's `balance(account)`; an
/// account without a balance entry gives `NotFound`, any other failure
/// `ContractFault`.
pub fn balance<F: FnOnce(TokenCall) -> Result<i128, TokenFailure>>(token: Addr, account: Addr, invoke: F) -> (r:
    Result<i128, ContractError>)
    requires
        call_requires(invoke, ((TokenCall::Balance { token, id: account }),)),
    ensures
        exists|reply: Result<i128, TokenFailure>|
            #[trigger] call_ensures(invoke, ((TokenCall::Balance { token, id: account }),), reply) && r == query_outcome(
                reply,
            ),
{
    let reply = invoke(TokenCall::Balance { token, id: account });
    query_result(reply)
}

/// Approve `spender` to spend up to `amount` of `owner`'s `token` until
/// `expiration_ledger`.
///
/// A negative amount is refused with `InvalidAmount` and nothing is invoked
/// (zero is allowed: it revokes an allowance). Otherwise `invoke` is called
/// once, with the token contract's
/// `approve(owner, spender, amount, expiration_ledger)`; a missing
/// authorisation of `owner` becomes `Unauthorized`, any other failure
/// `ContractFault`.
pub fn approve<F: FnOnce(TokenCall) -> Result<(), TokenFailure>>(
    token: Addr,
    owner: Addr,
    spender: Addr,
    amount: i128,
    expiration_ledger: u32,
    invoke: F,
) -> (r: Result<(), ContractError>)
    requires
        amount >= 0 ==> call_requires(
            invoke,
            ((TokenCall::Approve { token, from: owner, spender, amount, expiration_ledger }),),
        ),
    ensures
        amount < 0 ==> r == Err::<(), ContractError>(ContractError::InvalidAmount),
        amount >= 0 ==> exists|reply: Result<(), TokenFailure>|
            #[trigger] call_ensures(
                invoke,
                ((TokenCall::Approve { token, from: owner, spender, amount, expiration_ledger }),),
                reply,
            ) && r == approve_outcome(reply),
{
    if amount < 0 {
        return Err(ContractError::InvalidAmount);
    }
    let reply = invoke(TokenCall::Approve { token, from: owner, spender, amount, expiration_ledger });
    match reply {
        Ok(u) => Ok(u),
        Err(TokenFailure::NotAuthorized) => Err(ContractError::Unauthorized),
        Err(_) => Err(ContractError::ContractFault),
    }
}

/// Current allowance `(amount, expiration_ledger)` granted by `owner` to
/// `spender` on `token`.
///
/// `invoke` is called once, with the token contract's
/// `allowance(owner, spender)`; no allowance entry gives `NotFound`, any other
/// failure `ContractFault`.
pub fn allowance<F: FnOnce(TokenCall) -> Result<(i128, u32), TokenFailure>>(
    token: Addr,
    owner: Addr,
    spender: Addr,
    invoke: F,
) -> (r: Result<(i128, u32), ContractError>)
    requires
        call_requires(invoke, ((TokenCall::Allowance { token, from: owner, spender }),)),
    ensures
        exists|reply: Result<(i128, u32), TokenFailure>|
            #[trigger] call_ensures(invoke, ((TokenCall::Allowance { token, from: owner, spender }),), reply) && r
                == query_outcome(reply),
{
    let reply = invoke(TokenCall::Allowance { token, from: owner, spender });
    query_result(reply)
}

} // verus!
