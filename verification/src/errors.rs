use vstd::prelude::*;

verus! {

/// Why an operation on the wallet was turned down.
///
/// Every operation that returns one of these leaves the state it was given
/// exactly as it found it.
#[derive(Clone, Copy, Debug, PartialEq, Eq, Structural)]
pub enum ShieldWalletError {
    /// A record is already stored under the proposed identifier.
    TransactionAlreadyExists,
    /// No pending record is stored under the identifier.
    TransactionDoesNotExist,
    /// The timelock that started at the proposal has not run out.
    TimelockNotPassed,
    /// Fewer approvals were presented than the threshold asks for.
    InsufficientApprovals,
    /// No allow-list entry matches the call's target and payload.
    TargetNotWhitelisted,
    /// The caller is not one of the wallet's owners.
    NotAnOwner,
    /// The requested threshold kind is unknown.
    InvalidThresholdType,
    /// The policy that would result breaks one of its bounds.
    InvalidThresholdValue,
    /// The approver is already among the record's approvals.
    SignerAlreadyApproved,
    /// The matching allow-list entry caps the value below what the call moves.
    MaxValueExceeded,
    /// The caller may not perform the operation.
    NotAuthorized,
    /// A presented signature does not verify.
    InvalidSignature,
    /// The delegated transfer or call was not carried out.
    ExecutionFailed,
    /// The key is already one of the wallet's owners.
    OwnerAlreadyExists,
}

impl ShieldWalletError {
    /// The text that goes with the error.
    pub open spec fn message_text(self) -> Seq<char> {
        match self {
            ShieldWalletError::TransactionAlreadyExists => "Transaction already exists"@,
            ShieldWalletError::TransactionDoesNotExist => "Transaction does not exist"@,
            ShieldWalletError::TimelockNotPassed => "Timelock period not passed"@,
            ShieldWalletError::InsufficientApprovals => "Insufficient approvals"@,
            ShieldWalletError::TargetNotWhitelisted => "Target not whitelisted"@,
            ShieldWalletError::NotAnOwner => "Not an owner"@,
            ShieldWalletError::InvalidThresholdType => "Invalid threshold type"@,
            ShieldWalletError::InvalidThresholdValue => "Invalid threshold value"@,
            ShieldWalletError::SignerAlreadyApproved => "Signer already approved"@,
            ShieldWalletError::MaxValueExceeded => "Maximum value exceeded"@,
            ShieldWalletError::NotAuthorized => "Operation not authorized"@,
            ShieldWalletError::InvalidSignature => "Invalid signature"@,
            ShieldWalletError::ExecutionFailed => "Execution failed"@,
            ShieldWalletError::OwnerAlreadyExists => "Owner already exists"@,
        }
    }

    /// The error in words.
    pub fn message(&self) -> (text: String)
        ensures
            text@ == self.message_text(),
    {
        match self {
            ShieldWalletError::TransactionAlreadyExists => "Transaction already exists".to_owned(),
            ShieldWalletError::TransactionDoesNotExist => "Transaction does not exist".to_owned(),
            ShieldWalletError::TimelockNotPassed => "Timelock period not passed".to_owned(),
            ShieldWalletError::InsufficientApprovals => "Insufficient approvals".to_owned(),
            ShieldWalletError::TargetNotWhitelisted => "Target not whitelisted".to_owned(),
            ShieldWalletError::NotAnOwner => "Not an owner".to_owned(),
            ShieldWalletError::InvalidThresholdType => "Invalid threshold type".to_owned(),
            ShieldWalletError::InvalidThresholdValue => "Invalid threshold value".to_owned(),
            ShieldWalletError::SignerAlreadyApproved => "Signer already approved".to_owned(),
            ShieldWalletError::MaxValueExceeded => "Maximum value exceeded".to_owned(),
            ShieldWalletError::NotAuthorized => "Operation not authorized".to_owned(),
            ShieldWalletError::InvalidSignature => "Invalid signature".to_owned(),
            ShieldWalletError::ExecutionFailed => "Execution failed".to_owned(),
            ShieldWalletError::OwnerAlreadyExists => "Owner already exists".to_owned(),
        }
    }
}

} // verus!
