use crate::authority::{system_transfer, transfer_instruction};
use crate::errors::ShieldWalletError;
use crate::gates::{
    check_timelock, check_whitelist, quorum_reached, satisfies_threshold, timelock_released,
    whitelist_verdict,
};
use crate::keys::{contains_key, holds_key, key_bytes, lemma_push_keeps_distinct};
use crate::policy::{WalletConfig, WalletConfigView, WhitelistedTarget};
use crate::transaction::{
    slot_view, AccountRef, Call, CallView, Transaction, TransactionExecuted, TransactionId,
    TransactionView, MAX_DATA_SIZE,
};
use anchor_lang::prelude::Pubkey;
use anchor_lang::solana_program::instruction::Instruction;
use vstd::prelude::*;

verus! {

/// What `propose_transaction` works on.
#[derive(Clone, Debug, PartialEq, Eq)]
pub struct ProposeTransaction {
    pub proposer: Pubkey,
    pub wallet_config: WalletConfig,
    /// What is stored under `tx_id` for this wallet: `None` while the
    /// identifier is free.
    pub transaction: Option<Transaction>,
    pub tx_id: TransactionId,
    /// The bump seed found for the record's address.
    pub bump: u8,
}

/// What `approve_transaction` works on.
#[derive(Clone, Debug, PartialEq, Eq)]
pub struct ApproveTransaction {
    pub approver: Pubkey,
    pub wallet_config: WalletConfig,
    /// What is stored under the transaction's identifier.
    pub transaction: Option<Transaction>,
}

/// What `execute_transaction` and `finalize_execution` work on.
#[derive(Clone, Debug, PartialEq, Eq)]
pub struct ExecuteTransaction {
    pub executor: Pubkey,
    /// The wallet's own address, out of which it pays.
    pub wallet: Pubkey,
    pub wallet_config: WalletConfig,
    /// What is stored under the transaction's identifier.
    pub transaction: Option<Transaction>,
}

/// A movement of lamports out of the wallet, made in the wallet's name.
#[derive(Debug, PartialEq, Eq)]
pub struct DelegatedTransfer {
    pub recipient: Pubkey,
    pub lamports: u64,
    /// The instruction to the system program that moves them.
    pub instruction: Instruction,
}

/// What the wallet asks to be done in its name once a transaction is cleared:
/// first the transfer, where there is one, then the call.
#[derive(Debug, PartialEq, Eq)]
pub struct DelegatedCalls {
    pub transfer: Option<DelegatedTransfer>,
    pub program_id: Pubkey,
    pub accounts: Vec<AccountRef>,
    pub data: Vec<u8>,
}

/// The delegated calls as a mathematical value.
pub struct DelegatedCallsView {
    pub transfer: Option<DelegatedTransfer>,
    pub program_id: Pubkey,
    pub accounts: Seq<AccountRef>,
    pub data: Seq<u8>,
}

impl View for DelegatedCalls {
    type V = DelegatedCallsView;

    open spec fn view(&self) -> DelegatedCallsView {
        DelegatedCallsView {
            transfer: self.transfer,
            program_id: self.program_id,
            accounts: self.accounts@,
            data: self.data@,
        }
    }
}

/// The record that a proposal creates: the proposer is its first approval.
pub open spec fn proposed_record(
    proposer: Pubkey,
    tx_id: [u8; 32],
    call: CallView,
    now: i64,
    bump: u8,
) -> TransactionView {
    TransactionView { tx_id, call, approvals: seq![proposer], proposed_at: now, bump }
}

/// A proposal is taken from an owner under an identifier that is still free.
pub open spec fn propose_outcome(
    policy: WalletConfigView,
    slot: Option<TransactionView>,
    proposer: Pubkey,
    tx_id: [u8; 32],
    call: CallView,
    now: i64,
    bump: u8,
) -> Result<TransactionView, ShieldWalletError> {
    if !policy.is_owner(proposer) {
        Err(ShieldWalletError::NotAnOwner)
    } else if slot is Some {
        Err(ShieldWalletError::TransactionAlreadyExists)
    } else {
        Ok(proposed_record(proposer, tx_id, call, now, bump))
    }
}

/// The record with one more approval.
pub open spec fn approved_record(record: TransactionView, approver: Pubkey) -> TransactionView {
    TransactionView { approvals: record.approvals.push(approver), ..record }
}

/// An approval is taken from an owner who has not approved the pending record
/// yet.
pub open spec fn approve_outcome(
    policy: WalletConfigView,
    slot: Option<TransactionView>,
    approver: Pubkey,
) -> Result<TransactionView, ShieldWalletError> {
    if !policy.is_owner(approver) {
        Err(ShieldWalletError::NotAnOwner)
    } else {
        match slot {
            None => Err(ShieldWalletError::TransactionDoesNotExist),
            Some(record) => if holds_key(record.approvals, approver) {
                Err(ShieldWalletError::SignerAlreadyApproved)
            } else {
                Ok(approved_record(record, approver))
            },
        }
    }
}

/// The gates of an execution, in their fixed order: the record exists, its
/// approvals reach the execution threshold, its timelock has run out, and the
/// allow-list admits its call. The first gate that fails decides.
pub open spec fn gates_verdict(
    policy: WalletConfigView,
    slot: Option<TransactionView>,
    now: i64,
) -> Result<WhitelistedTarget, ShieldWalletError> {
    match slot {
        None => Err(ShieldWalletError::TransactionDoesNotExist),
        Some(record) => if !quorum_reached(record.approvals.len(), policy.execution_threshold) {
            Err(ShieldWalletError::InsufficientApprovals)
        } else if !timelock_released(now, record.proposed_at, policy.timelock_duration) {
            Err(ShieldWalletError::TimelockNotPassed)
        } else {
            whitelist_verdict(policy.whitelisted_targets, record.call)
        },
    }
}

/// The transfer that pays `lamports` out of the wallet to `recipient`.
pub open spec fn transfer_out(wallet: Pubkey, recipient: Pubkey, lamports: u64) -> DelegatedTransfer {
    DelegatedTransfer {
        recipient,
        lamports,
        instruction: system_transfer(key_bytes(wallet), key_bytes(recipient), lamports),
    }
}

/// What a cleared call asks for: a transfer of its value to its first account
/// where it moves any, then the call itself. A call that moves value and names
/// no account has nobody to pay, and cannot be carried out.
pub open spec fn delegated_calls(wallet: Pubkey, call: CallView) -> Result<
    DelegatedCallsView,
    ShieldWalletError,
> {
    if call.value > 0 && call.accounts.len() == 0 {
        Err(ShieldWalletError::ExecutionFailed)
    } else {
        Ok(
            DelegatedCallsView {
                transfer: if call.value > 0 {
                    Some(transfer_out(wallet, call.accounts[0].pubkey, call.value))
                } else {
                    None
                },
                program_id: call.program_id,
                accounts: call.accounts,
                data: call.data,
            },
        )
    }
}

/// What an execution request is answered with: the error of the first gate
/// that fails, or the calls to make in the wallet's name.
pub open spec fn execute_outcome(
    policy: WalletConfigView,
    slot: Option<TransactionView>,
    wallet: Pubkey,
    now: i64,
) -> Result<DelegatedCallsView, ShieldWalletError> {
    match gates_verdict(policy, slot, now) {
        Err(e) => Err(e),
        Ok(_) => delegated_calls(wallet, slot->0.call),
    }
}

/// How an execution ends once the delegated calls were attempted: with the
/// receipt, where the gates are passed, the call can be carried out and the
/// calls were delivered. The first of these that fails decides.
pub open spec fn finalize_outcome(
    policy: WalletConfigView,
    slot: Option<TransactionView>,
    executor: Pubkey,
    now: i64,
    delivered: bool,
) -> Result<TransactionExecuted, ShieldWalletError> {
    match gates_verdict(policy, slot, now) {
        Err(e) => Err(e),
        Ok(_) => if slot->0.call.value > 0 && slot->0.call.accounts.len() == 0 {
            Err(ShieldWalletError::ExecutionFailed)
        } else if delivered {
            Ok(TransactionExecuted { tx_id: slot->0.tx_id, executor, timestamp: now })
        } else {
            Err(ShieldWalletError::ExecutionFailed)
        },
    }
}

/// What is stored under the identifier after an execution ended: nothing where
/// it succeeded, and what was there before where it did not.
pub open spec fn slot_after_execution(
    policy: WalletConfigView,
    slot: Option<TransactionView>,
    executor: Pubkey,
    now: i64,
    delivered: bool,
) -> Option<TransactionView> {
    if finalize_outcome(policy, slot, executor, now, delivered) is Ok {
        None
    } else {
        slot
    }
}

/// Stores a new pending transaction whose first approval is the proposer's.
///
/// Refused with `NotAnOwner` where the proposer is no owner, else with
/// `TransactionAlreadyExists` where the identifier is taken.
pub fn propose_transaction(ctx: &mut ProposeTransaction, call: Call, now: i64) -> (res: Result<
    (),
    ShieldWalletError,
>)
    requires
        call@.data.len() <= MAX_DATA_SIZE,
    ensures
        match res {
            Ok(()) => {
                &&& propose_outcome(
                    old(ctx).wallet_config@,
                    slot_view(old(ctx).transaction),
                    old(ctx).proposer,
                    old(ctx).tx_id.id,
                    call@,
                    now,
                    old(ctx).bump,
                ) == Ok::<TransactionView, ShieldWalletError>(final(ctx).transaction->0@)
                &&& final(ctx).transaction is Some
                &&& final(ctx).transaction->0@.well_formed()
                &&& final(ctx).proposer == old(ctx).proposer
                &&& final(ctx).wallet_config == old(ctx).wallet_config
                &&& final(ctx).tx_id == old(ctx).tx_id
                &&& final(ctx).bump == old(ctx).bump
            },
            Err(e) => {
                &&& propose_outcome(
                    old(ctx).wallet_config@,
                    slot_view(old(ctx).transaction),
                    old(ctx).proposer,
                    old(ctx).tx_id.id,
                    call@,
                    now,
                    old(ctx).bump,
                ) == Err::<TransactionView, ShieldWalletError>(e)
                &&& *final(ctx) == *old(ctx)
            },
        },
{
    if !ctx.wallet_config.is_owner(ctx.proposer) {
        return Err(ShieldWalletError::NotAnOwner);
    }
    if ctx.transaction.is_some() {
        return Err(ShieldWalletError::TransactionAlreadyExists);
    }
    let mut approvals: Vec<Pubkey> = Vec::new();
    approvals.push(ctx.proposer);
    assert(approvals@ =~= seq![ctx.proposer]);
    ctx.transaction = Some(
        Transaction { tx_id: ctx.tx_id.id, call, approvals, proposed_at: now, bump: ctx.bump },
    );
    Ok(())
}

/// Adds the approver to the pending transaction's approvals.
///
/// Refused with `NotAnOwner` where the approver is no owner, else with
/// `TransactionDoesNotExist` where nothing is pending, else with
/// `SignerAlreadyApproved` where the approver is among the approvals.
pub fn approve_transaction(ctx: &mut ApproveTransaction) -> (res: Result<(), ShieldWalletError>)
    ensures
        match res {
            Ok(()) => {
                &&& approve_outcome(
                    old(ctx).wallet_config@,
                    slot_view(old(ctx).transaction),
                    old(ctx).approver,
                ) == Ok::<TransactionView, ShieldWalletError>(final(ctx).transaction->0@)
                &&& final(ctx).transaction is Some
                &&& final(ctx).transaction->0.call == old(ctx).transaction->0.call
                &&& old(ctx).transaction->0@.well_formed()
                    ==> final(ctx).transaction->0@.well_formed()
                &&& final(ctx).approver == old(ctx).approver
                &&& final(ctx).wallet_config == old(ctx).wallet_config
            },
            Err(e) => {
                &&& approve_outcome(
                    old(ctx).wallet_config@,
                    slot_view(old(ctx).transaction),
                    old(ctx).approver,
                ) == Err::<TransactionView, ShieldWalletError>(e)
                &&& *final(ctx) == *old(ctx)
            },
        },
{
    if !ctx.wallet_config.is_owner(ctx.approver) {
        return Err(ShieldWalletError::NotAnOwner);
    }
    let approver = ctx.approver;
    match &mut ctx.transaction {
        None => Err(ShieldWalletError::TransactionDoesNotExist),
        Some(transaction) => {
            if contains_key(&transaction.approvals, &approver) {
                return Err(ShieldWalletError::SignerAlreadyApproved);
            }
            proof {
                if transaction@.well_formed() {
                    lemma_push_keeps_distinct(transaction.approvals@, approver);
                }
            }
            transaction.approvals.push(approver);
            Ok(())
        },
    }
}

/// Evaluates the gates of an execution in their fixed order and returns the
/// allow-list entry that admits the call, or the error of the first gate that
/// fails.
pub fn check_gates(config: &WalletConfig, slot: &Option<Transaction>, now: i64) -> (res: Result<
    WhitelistedTarget,
    ShieldWalletError,
>)
    ensures
        res == gates_verdict(config@, slot_view(*slot), now),
{
    match slot {
        None => Err(ShieldWalletError::TransactionDoesNotExist),
        Some(transaction) => {
            if !satisfies_threshold(&transaction.approvals, config.execution_threshold) {
                return Err(ShieldWalletError::InsufficientApprovals);
            }
            if check_timelock(now, transaction.proposed_at, config.timelock_duration).is_err() {
                return Err(ShieldWalletError::TimelockNotPassed);
            }
            check_whitelist(&transaction.call, &config.whitelisted_targets)
        },
    }
}

/// A copy of the payload bytes.
fn copy_data(data: &Vec<u8>) -> (copy: Vec<u8>)
    ensures
        copy@ == data@,
{
    let mut copy: Vec<u8> = Vec::new();
    let mut i: usize = 0;
    while i < data.len()
        invariant
            i <= data.len(),
            copy@ == data@.subrange(0, i as int),
        decreases data.len() - i,
    {
        copy.push(data[i]);
        assert(copy@ =~= data@.subrange(0, i + 1));
        i += 1;
    }
    assert(data@.subrange(0, data.len() as int) =~= data@);
    copy
}

/// A copy of the account list.
fn copy_accounts(accounts: &Vec<AccountRef>) -> (copy: Vec<AccountRef>)
    ensures
        copy@ == accounts@,
{
    let mut copy: Vec<AccountRef> = Vec::new();
    let mut i: usize = 0;
    while i < accounts.len()
        invariant
            i <= accounts.len(),
            copy@ == accounts@.subrange(0, i as int),
        decreases accounts.len() - i,
    {
        copy.push(accounts[i]);
        assert(copy@ =~= accounts@.subrange(0, i + 1));
        i += 1;
    }
    assert(accounts@.subrange(0, accounts.len() as int) =~= accounts@);
    copy
}

/// Lays out what a cleared call asks to be done in the wallet's name.
pub fn plan_delegated_calls(wallet: &Pubkey, call: &Call) -> (res: Result<
    DelegatedCalls,
    ShieldWalletError,
>)
    ensures
        match res {
            Ok(calls) => delegated_calls(*wallet, call@) == Ok::<
                DelegatedCallsView,
                ShieldWalletError,
            >(calls@),
            Err(e) => delegated_calls(*wallet, call@) == Err::<
                DelegatedCallsView,
                ShieldWalletError,
            >(e),
        },
{
    let transfer = if call.value > 0 {
        if call.accounts.len() == 0 {
            return Err(ShieldWalletError::ExecutionFailed);
        }
        let recipient = call.accounts[0].pubkey;
        Some(
            DelegatedTransfer {
                recipient,
                lamports: call.value,
                instruction: transfer_instruction(wallet, &recipient, call.value),
            },
        )
    } else {
        None
    };
    Ok(
        DelegatedCalls {
            transfer,
            program_id: call.program_id,
            accounts: copy_accounts(&call.accounts),
            data: copy_data(&call.data),
        },
    )
}

/// Clears the pending transaction for execution and says what is to be done in
/// the wallet's name. Nothing is changed: the record stays until
/// `finalize_execution` is told that the calls were delivered.
///
/// Refused with the error of the first gate that fails, in this order:
/// `TransactionDoesNotExist`, `InsufficientApprovals`, `TimelockNotPassed`,
/// `TargetNotWhitelisted` or `MaxValueExceeded`; after them, `ExecutionFailed`
/// where the call moves value and names no account to receive it.
pub fn execute_transaction(ctx: &ExecuteTransaction, now: i64) -> (res: Result<
    DelegatedCalls,
    ShieldWalletError,
>)
    ensures
        match res {
            Ok(calls) => execute_outcome(
                ctx.wallet_config@,
                slot_view(ctx.transaction),
                ctx.wallet,
                now,
            ) == Ok::<DelegatedCallsView, ShieldWalletError>(calls@),
            Err(e) => execute_outcome(
                ctx.wallet_config@,
                slot_view(ctx.transaction),
                ctx.wallet,
                now,
            ) == Err::<DelegatedCallsView, ShieldWalletError>(e),
        },
{
    match check_gates(&ctx.wallet_config, &ctx.transaction, now) {
        Err(e) => Err(e),
        Ok(_) => match &ctx.transaction {
            Some(transaction) => plan_delegated_calls(&ctx.wallet, &transaction.call),
            None => Err(ShieldWalletError::TransactionDoesNotExist),
        },
    }
}

/// Ends an execution. Where the transaction is cleared as in
/// `execute_transaction` and `delivered` says that the delegated calls were
/// carried out, the record is removed and the receipt is returned. Otherwise
/// nothing is changed, and the error is that of `execute_transaction`, or
/// `ExecutionFailed` where the calls were not delivered.
pub fn finalize_execution(ctx: &mut ExecuteTransaction, now: i64, delivered: bool) -> (res: Result<
    TransactionExecuted,
    ShieldWalletError,
>)
    ensures
        res == finalize_outcome(
            old(ctx).wallet_config@,
            slot_view(old(ctx).transaction),
            old(ctx).executor,
            now,
            delivered,
        ),
        slot_view(final(ctx).transaction) == slot_after_execution(
            old(ctx).wallet_config@,
            slot_view(old(ctx).transaction),
            old(ctx).executor,
            now,
            delivered,
        ),
        match res {
            Ok(_) => {
                &&& final(ctx).transaction is None
                &&& final(ctx).executor == old(ctx).executor
                &&& final(ctx).wallet == old(ctx).wallet
                &&& final(ctx).wallet_config == old(ctx).wallet_config
            },
            Err(_) => *final(ctx) == *old(ctx),
        },
{
    if let Err(e) = check_gates(&ctx.wallet_config, &ctx.transaction, now) {
        return Err(e);
    }
    let receipt = match &ctx.transaction {
        None => {
            return Err(ShieldWalletError::TransactionDoesNotExist);
        },
        Some(transaction) => {
            if transaction.call.value > 0 && transaction.call.accounts.len() == 0 {
                return Err(ShieldWalletError::ExecutionFailed);
            }
            TransactionExecuted { tx_id: transaction.tx_id, executor: ctx.executor, timestamp: now }
        },
    };
    if !delivered {
        return Err(ShieldWalletError::ExecutionFailed);
    }
    ctx.transaction = None;
    Ok(receipt)
}

} // verus!
