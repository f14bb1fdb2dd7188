use grant_contracts::optimized::LedgerError;
use grant_contracts::self_terminate::SelfTerminateError;
use grant_contracts::GrantError;
use soroban_sdk::xdr::ScErrorType;

#[test]
fn grant_errors_become_contract_errors_of_their_code() {
    let error = GrantError::InvalidAmount.to_host_error();
    assert_eq!(error.get_code(), 3);
    assert!(error.is_type(ScErrorType::Contract));
    assert!(!error.is_type(ScErrorType::Auth));
    assert_eq!(error, soroban_sdk::Error::from_contract_error(3));
    assert_ne!(error, GrantError::InvalidGrantee.to_host_error());
    assert_eq!(GrantError::InvalidGrantee.to_host_error().get_code(), 13);
    assert_eq!(GrantError::GrantNotFound.to_host_error().get_code(), 1);
}

#[test]
fn ledger_errors_are_numbered_from_one() {
    let all = [
        LedgerError::NotInitialized,
        LedgerError::AlreadyInitialized,
        LedgerError::NotAuthorized,
        LedgerError::GrantNotFound,
        LedgerError::GrantAlreadyExists,
        LedgerError::InvalidRate,
        LedgerError::InvalidAmount,
        LedgerError::InvalidState,
        LedgerError::MathOverflow,
        LedgerError::InvalidStatusTransition,
        LedgerError::SelfTerminate(SelfTerminateError::AlreadyTerminated),
        LedgerError::SelfTerminate(SelfTerminateError::CannotTerminateCompleted),
        LedgerError::SelfTerminate(SelfTerminateError::CannotTerminateCancelled),
        LedgerError::SelfTerminate(SelfTerminateError::InsufficientBalance),
        LedgerError::SelfTerminate(SelfTerminateError::TransferFailed),
        LedgerError::GrantNotInactive,
        LedgerError::RescueWouldViolateAllocated,
    ];
    for (i, error) in all.iter().enumerate() {
        assert_eq!(error.code(), i as u32 + 1);
        let host = error.to_host_error();
        assert_eq!(host.get_code(), i as u32 + 1);
        assert!(host.is_type(ScErrorType::Contract));
        assert_eq!(host, soroban_sdk::Error::from_contract_error(i as u32 + 1));
    }
}
