use vstd::prelude::*;

verus! {

/// The error taxonomy shared by the fee manager, the multisig authority, the
/// treasury and the token helpers. Every variant has a numeric code that must
/// never change once deployed (see [`ContractError::code`]).
#[derive(Copy, Clone, Debug, PartialEq, Eq, Structural)]
pub enum ContractError {
    Unauthorized,
    InvalidAmount,
    NotFound,
    AlreadyProcessed,
    Reentrant,
    BelowThreshold,
    Paused,
    ContractFault,
    Overflow,
}

impl ContractError {
    /// The stable numeric code of each error.
    pub open spec fn code_spec(self) -> u32 {
        match self {
            ContractError::Unauthorized => 1,
            ContractError::InvalidAmount => 2,
            ContractError::NotFound => 3,
            ContractError::AlreadyProcessed => 4,
            ContractError::Reentrant => 5,
            ContractError::BelowThreshold => 6,
            ContractError::Paused => 7,
            ContractError::ContractFault => 8,
            ContractError::Overflow => 9,
        }
    }

    /// Numeric code under which the error is reported on chain.
    pub fn code(&self) -> (c: u32)
        ensures
            c == self.code_spec(),
    {
        match self {
            ContractError::Unauthorized => 1,
            ContractError::InvalidAmount => 2,
            ContractError::NotFound => 3,
            ContractError::AlreadyProcessed => 4,
            ContractError::Reentrant => 5,
            ContractError::BelowThreshold => 6,
            ContractError::Paused => 7,
            ContractError::ContractFault => 8,
            ContractError::Overflow => 9,
        }
    }
}

} // verus!
