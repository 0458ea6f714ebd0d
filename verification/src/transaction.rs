use crate::keys::distinct_keys;
use anchor_lang::prelude::Pubkey;
use vstd::prelude::*;

verus! {

/// The longest payload a call may carry, in bytes.
pub const MAX_DATA_SIZE: usize = 1024;

/// One account that a call hands to its target.
#[derive(Clone, Copy, Debug, PartialEq, Eq)]
pub struct AccountRef {
    pub pubkey: Pubkey,
    pub is_signer: bool,
    pub is_writable: bool,
}

/// An outbound call: the program to invoke, the accounts and payload it gets,
/// and the lamports that go with it.
#[derive(Clone, Debug, PartialEq, Eq)]
pub struct Call {
    pub program_id: Pubkey,
    /// The accounts passed through to the program. Where the call moves value,
    /// the first of them receives it.
    pub accounts: Vec<AccountRef>,
    pub data: Vec<u8>,
    pub value: u64,
}

/// A call as a mathematical value.
pub struct CallView {
    pub program_id: Pubkey,
    pub accounts: Seq<AccountRef>,
    pub data: Seq<u8>,
    pub value: u64,
}

impl View for Call {
    type V = CallView;

    open spec fn view(&self) -> CallView {
        CallView {
            program_id: self.program_id,
            accounts: self.accounts@,
            data: self.data@,
            value: self.value,
        }
    }
}

/// The identifier that the proposer chose for a transaction.
#[derive(Clone, Copy, Debug, PartialEq, Eq)]
pub struct TransactionId {
    pub id: [u8; 32],
}

/// A proposed call, waiting for approvals and for its timelock.
#[derive(Clone, Debug, PartialEq, Eq)]
pub struct Transaction {
    pub tx_id: [u8; 32],
    pub call: Call,
    /// The owners who agreed so far, the proposer first.
    pub approvals: Vec<Pubkey>,
    /// When the call was proposed, in seconds.
    pub proposed_at: i64,
    pub bump: u8,
}

/// A pending transaction as a mathematical value.
pub struct TransactionView {
    pub tx_id: [u8; 32],
    pub call: CallView,
    pub approvals: Seq<Pubkey>,
    pub proposed_at: i64,
    pub bump: u8,
}

impl TransactionView {
    /// The invariant of a record: somebody approved, nobody approved twice, and
    /// the payload fits.
    pub open spec fn well_formed(self) -> bool {
        &&& self.approvals.len() >= 1
        &&& distinct_keys(self.approvals)
        &&& self.call.data.len() <= MAX_DATA_SIZE
    }
}

impl View for Transaction {
    type V = TransactionView;

    open spec fn view(&self) -> TransactionView {
        TransactionView {
            tx_id: self.tx_id,
            call: self.call@,
            approvals: self.approvals@,
            proposed_at: self.proposed_at,
            bump: self.bump,
        }
    }
}

/// What is stored under one transaction identifier: a pending record or nothing.
pub open spec fn slot_view(slot: Option<Transaction>) -> Option<TransactionView> {
    match slot {
        Some(transaction) => Some(transaction@),
        None => None,
    }
}

/// The receipt of an executed transaction.
#[derive(Clone, Copy, Debug, PartialEq, Eq)]
pub struct TransactionExecuted {
    pub tx_id: [u8; 32],
    pub executor: Pubkey,
    pub timestamp: i64,
}

} // verus!
