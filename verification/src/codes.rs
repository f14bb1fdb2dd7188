//! Errors as a host reports them: each error has a code, and the host carries
//! the code in an error value of its own.

use vstd::prelude::*;

use crate::optimized::LedgerError;
use crate::self_terminate::SelfTerminateError;
use crate::GrantError;

verus! {

/// The code under which the host reports `error`: the variants are numbered
/// from 1 in the order of their declaration.
pub open spec fn error_code(error: GrantError) -> u32 {
    match error {
        GrantError::GrantNotFound => 1,
        GrantError::Unauthorized => 2,
        GrantError::InvalidAmount => 3,
        GrantError::MilestoneNotFound => 4,
        GrantError::AlreadyApproved => 5,
        GrantError::ExceedsTotalAmount => 6,
        GrantError::InvalidStatus => 7,
        GrantError::InvalidShares => 8,
        GrantError::NotCouncilMember => 9,
        GrantError::AlreadyVoted => 10,
        GrantError::VotingExpired => 11,
        GrantError::CliffNotPassed => 12,
        GrantError::InvalidGrantee => 13,
    }
}

impl GrantError {
    /// The code under which the host reports this error.
    pub fn code(&self) -> (r: u32)
        ensures
            r == error_code(*self),
            1 <= r <= 13,
    {
        match self {
            GrantError::GrantNotFound => 1,
            GrantError::Unauthorized => 2,
            GrantError::InvalidAmount => 3,
            GrantError::MilestoneNotFound => 4,
            GrantError::AlreadyApproved => 5,
            GrantError::ExceedsTotalAmount => 6,
            GrantError::InvalidStatus => 7,
            GrantError::InvalidShares => 8,
            GrantError::NotCouncilMember => 9,
            GrantError::AlreadyVoted => 10,
            GrantError::VotingExpired => 11,
            GrantError::CliffNotPassed => 12,
            GrantError::InvalidGrantee => 13,
        }
    }
}

/// The code under which the host reports an error of the streaming ledger:
/// the errors are numbered from 1, those of a self-termination from 11.
pub open spec fn ledger_error_code(error: LedgerError) -> u32 {
    match error {
        LedgerError::NotInitialized => 1,
        LedgerError::AlreadyInitialized => 2,
        LedgerError::NotAuthorized => 3,
        LedgerError::GrantNotFound => 4,
        LedgerError::GrantAlreadyExists => 5,
        LedgerError::InvalidRate => 6,
        LedgerError::InvalidAmount => 7,
        LedgerError::InvalidState => 8,
        LedgerError::MathOverflow => 9,
        LedgerError::InvalidStatusTransition => 10,
        LedgerError::SelfTerminate(SelfTerminateError::AlreadyTerminated) => 11,
        LedgerError::SelfTerminate(SelfTerminateError::CannotTerminateCompleted) => 12,
        LedgerError::SelfTerminate(SelfTerminateError::CannotTerminateCancelled) => 13,
        LedgerError::SelfTerminate(SelfTerminateError::InsufficientBalance) => 14,
        LedgerError::SelfTerminate(SelfTerminateError::TransferFailed) => 15,
        LedgerError::GrantNotInactive => 16,
        LedgerError::RescueWouldViolateAllocated => 17,
    }
}

#[verifier::external_type_specification]
#[verifier::external_body]
pub struct ExHostError(soroban_sdk::Error);

/// The error value of type contract that the host makes of a code: what
/// `soroban_sdk::Error::from_contract_error` returns for it.
pub uninterp spec fn contract_error(code: u32) -> soroban_sdk::Error;

/// Calls `soroban_sdk::Error::from_contract_error`, which packs the code and
/// the error type contract into a value. The value is opaque here; the
/// contract claims only that it depends on the code alone.
#[verifier::external_body]
fn host_error(code: u32) -> (r: soroban_sdk::Error)
    ensures
        r == contract_error(code),
{
    soroban_sdk::Error::from_contract_error(code)
}

impl GrantError {
    /// The host's error value for this error: the contract error of its code.
    pub fn to_host_error(&self) -> (r: soroban_sdk::Error)
        ensures
            r == contract_error(error_code(*self)),
    {
        host_error(self.code())
    }
}

impl LedgerError {
    /// The code under which the host reports this error.
    pub fn code(&self) -> (r: u32)
        ensures
            r == ledger_error_code(*self),
            1 <= r <= 17,
    {
        match self {
            LedgerError::NotInitialized => 1,
            LedgerError::AlreadyInitialized => 2,
            LedgerError::NotAuthorized => 3,
            LedgerError::GrantNotFound => 4,
            LedgerError::GrantAlreadyExists => 5,
            LedgerError::InvalidRate => 6,
            LedgerError::InvalidAmount => 7,
            LedgerError::InvalidState => 8,
            LedgerError::MathOverflow => 9,
            LedgerError::InvalidStatusTransition => 10,
            LedgerError::SelfTerminate(reason) => match reason {
                SelfTerminateError::AlreadyTerminated => 11,
                SelfTerminateError::CannotTerminateCompleted => 12,
                SelfTerminateError::CannotTerminateCancelled => 13,
                SelfTerminateError::InsufficientBalance => 14,
                SelfTerminateError::TransferFailed => 15,
            },
            LedgerError::GrantNotInactive => 16,
            LedgerError::RescueWouldViolateAllocated => 17,
        }
    }

    /// The host's error value for this error: the contract error of its code.
    pub fn to_host_error(&self) -> (r: soroban_sdk::Error)
        ensures
            r == contract_error(ledger_error_code(*self)),
    {
        host_error(self.code())
    }
}

} // verus!
