//! A multi-party wallet policy: proposals gather owner approvals and are released
//! for execution once a quorum, a timelock and a target allow-list all agree.
//!
//! The library decides; it neither stores nor sends. Each operation works on a
//! context that holds the records it reads and writes. `execute_transaction`
//! says which calls are to be made in the wallet's name, and
//! `finalize_execution` settles the record once they were attempted.

pub mod admin;
pub mod authority;
pub mod errors;
pub mod gates;
pub mod keys;
pub mod laws;
pub mod lifecycle;
pub mod policy;
pub mod transaction;

pub use admin::{
    add_owner, add_whitelisted_target, change_threshold, create_wallet, initialize, CreateWallet,
    Initialize, ManageWallet, ProgramAuthority,
};
pub use errors::ShieldWalletError;
pub use gates::{check_timelock, check_whitelist, satisfies_threshold, selector_allows};
pub use keys::contains_key;
pub use lifecycle::{
    approve_transaction, check_gates, execute_transaction, finalize_execution,
    plan_delegated_calls, propose_transaction, ApproveTransaction, DelegatedCalls,
    DelegatedTransfer, ExecuteTransaction, ProposeTransaction,
};
pub use policy::{
    check_bounds, keys_are_distinct, ThresholdType, WalletConfig, WhitelistedTarget, MAX_OWNERS,
    MAX_WHITELISTED_TARGETS,
};
pub use transaction::{
    AccountRef, Call, Transaction, TransactionExecuted, TransactionId, MAX_DATA_SIZE,
};
