use shield_wallet_solana::ShieldWalletError;

#[test]
fn every_error_has_its_message() {
    let expected = [
        (ShieldWalletError::TransactionAlreadyExists, "Transaction already exists"),
        (ShieldWalletError::TransactionDoesNotExist, "Transaction does not exist"),
        (ShieldWalletError::TimelockNotPassed, "Timelock period not passed"),
        (ShieldWalletError::InsufficientApprovals, "Insufficient approvals"),
        (ShieldWalletError::TargetNotWhitelisted, "Target not whitelisted"),
        (ShieldWalletError::NotAnOwner, "Not an owner"),
        (ShieldWalletError::InvalidThresholdType, "Invalid threshold type"),
        (ShieldWalletError::InvalidThresholdValue, "Invalid threshold value"),
        (ShieldWalletError::SignerAlreadyApproved, "Signer already approved"),
        (ShieldWalletError::MaxValueExceeded, "Maximum value exceeded"),
        (ShieldWalletError::NotAuthorized, "Operation not authorized"),
        (ShieldWalletError::InvalidSignature, "Invalid signature"),
        (ShieldWalletError::ExecutionFailed, "Execution failed"),
        (ShieldWalletError::OwnerAlreadyExists, "Owner already exists"),
    ];
    for (error, text) in expected {
        assert_eq!(error.message(), text);
    }
}

#[test]
fn errors_compare_by_kind() {
    assert_eq!(ShieldWalletError::NotAnOwner, ShieldWalletError::NotAnOwner);
    assert_ne!(ShieldWalletError::TargetNotWhitelisted, ShieldWalletError::MaxValueExceeded);
    assert_ne!(ShieldWalletError::TransactionDoesNotExist, ShieldWalletError::ExecutionFailed);
}
