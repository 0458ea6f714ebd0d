use anchor_lang::prelude::{AccountMeta, Pubkey};
use anchor_lang::solana_program::instruction::Instruction;
use anchor_lang::solana_program::{system_instruction, system_program};
use shield_wallet_solana::{
    approve_transaction, check_gates, execute_transaction, finalize_execution,
    plan_delegated_calls, propose_transaction, AccountRef, ApproveTransaction, Call,
    DelegatedCalls, DelegatedTransfer, ExecuteTransaction, ProposeTransaction, ShieldWalletError,
    Transaction, TransactionExecuted, TransactionId, WalletConfig, WhitelistedTarget,
    MAX_DATA_SIZE,
};

const TARGET: u8 = 40;
const WALLET: u8 = 30;

fn key(n: u8) -> Pubkey {
    Pubkey::new_from_array([n; 32])
}

fn wallet() -> WalletConfig {
    WalletConfig {
        owners: vec![key(1), key(2), key(3)],
        management_threshold: 2,
        execution_threshold: 2,
        revocation_threshold: 2,
        whitelisted_targets: vec![WhitelistedTarget {
            program_id: key(TARGET),
            instruction_discriminator: None,
            max_value: 100,
        }],
        timelock_duration: 60,
        bump: 254,
    }
}

fn recipient() -> AccountRef {
    AccountRef { pubkey: key(50), is_signer: false, is_writable: true }
}

fn call(value: u64) -> Call {
    Call {
        program_id: key(TARGET),
        accounts: vec![recipient(), AccountRef { pubkey: key(51), is_signer: true, is_writable: false }],
        data: vec![1, 2, 3],
        value,
    }
}

fn pending(value: u64, approvals: Vec<Pubkey>) -> Transaction {
    Transaction { tx_id: [7; 32], call: call(value), approvals, proposed_at: 1000, bump: 250 }
}

fn proposal(proposer: u8, slot: Option<Transaction>) -> ProposeTransaction {
    ProposeTransaction {
        proposer: key(proposer),
        wallet_config: wallet(),
        transaction: slot,
        tx_id: TransactionId { id: [7; 32] },
        bump: 250,
    }
}

fn approval(approver: u8, slot: Option<Transaction>) -> ApproveTransaction {
    ApproveTransaction { approver: key(approver), wallet_config: wallet(), transaction: slot }
}

fn execution(slot: Option<Transaction>) -> ExecuteTransaction {
    ExecuteTransaction {
        executor: key(9),
        wallet: key(WALLET),
        wallet_config: wallet(),
        transaction: slot,
    }
}

fn payment(lamports: u64) -> DelegatedTransfer {
    DelegatedTransfer {
        recipient: key(50),
        lamports,
        instruction: system_instruction::transfer(&key(WALLET), &key(50), lamports),
    }
}

#[test]
fn propose_stores_the_record_with_the_proposer_approving() {
    let mut ctx = proposal(1, None);
    assert_eq!(propose_transaction(&mut ctx, call(50), 1000), Ok(()));
    assert_eq!(ctx, proposal(1, Some(pending(50, vec![key(1)]))));
}

#[test]
fn propose_takes_a_payload_of_the_largest_size() {
    let mut ctx = proposal(2, None);
    let mut big = call(0);
    big.data = vec![0xab; MAX_DATA_SIZE];
    assert_eq!(propose_transaction(&mut ctx, big.clone(), -5), Ok(()));
    let stored = ctx.transaction.unwrap();
    assert_eq!(stored.call, big);
    assert_eq!(stored.approvals, vec![key(2)]);
    assert_eq!(stored.proposed_at, -5);
}

#[test]
fn propose_refuses_a_stranger() {
    let mut ctx = proposal(4, None);
    assert_eq!(
        propose_transaction(&mut ctx, call(50), 1000),
        Err(ShieldWalletError::NotAnOwner)
    );
    assert_eq!(ctx, proposal(4, None));
}

#[test]
fn propose_refuses_an_identifier_in_use() {
    let mut ctx = proposal(1, Some(pending(10, vec![key(2)])));
    assert_eq!(
        propose_transaction(&mut ctx, call(50), 2000),
        Err(ShieldWalletError::TransactionAlreadyExists)
    );
    assert_eq!(ctx, proposal(1, Some(pending(10, vec![key(2)]))));
}

#[test]
fn propose_by_a_stranger_on_an_identifier_in_use_is_not_an_owner() {
    let mut ctx = proposal(4, Some(pending(10, vec![key(2)])));
    assert_eq!(
        propose_transaction(&mut ctx, call(50), 2000),
        Err(ShieldWalletError::NotAnOwner)
    );
}

#[test]
fn approve_adds_the_approver() {
    let mut ctx = approval(2, Some(pending(50, vec![key(1)])));
    assert_eq!(approve_transaction(&mut ctx), Ok(()));
    assert_eq!(ctx, approval(2, Some(pending(50, vec![key(1), key(2)]))));
}

#[test]
fn approve_twice_counts_once() {
    let mut ctx = approval(2, Some(pending(50, vec![key(1)])));
    assert_eq!(approve_transaction(&mut ctx), Ok(()));
    let after_first = ctx.clone();
    assert_eq!(approve_transaction(&mut ctx), Err(ShieldWalletError::SignerAlreadyApproved));
    assert_eq!(ctx, after_first);
    assert_eq!(ctx.transaction.unwrap().approvals.len(), 2);
}

#[test]
fn approve_by_the_proposer_is_already_given() {
    let mut ctx = approval(1, Some(pending(50, vec![key(1)])));
    assert_eq!(approve_transaction(&mut ctx), Err(ShieldWalletError::SignerAlreadyApproved));
    assert_eq!(ctx, approval(1, Some(pending(50, vec![key(1)]))));
}

#[test]
fn approve_refuses_a_stranger() {
    let mut ctx = approval(4, Some(pending(50, vec![key(1)])));
    assert_eq!(approve_transaction(&mut ctx), Err(ShieldWalletError::NotAnOwner));
    assert_eq!(ctx, approval(4, Some(pending(50, vec![key(1)]))));
}

#[test]
fn approve_without_a_record_does_not_exist() {
    let mut ctx = approval(2, None);
    assert_eq!(approve_transaction(&mut ctx), Err(ShieldWalletError::TransactionDoesNotExist));
    assert_eq!(ctx, approval(2, None));
    let mut stranger = approval(4, None);
    assert_eq!(approve_transaction(&mut stranger), Err(ShieldWalletError::NotAnOwner));
}

#[test]
fn gates_fail_in_their_order() {
    let policy = wallet();
    assert_eq!(check_gates(&policy, &None, 5000), Err(ShieldWalletError::TransactionDoesNotExist));
    // Too few approvals, too early and over the cap at once.
    let record = Some(pending(150, vec![key(1)]));
    assert_eq!(check_gates(&policy, &record, 1000), Err(ShieldWalletError::InsufficientApprovals));
    // Too early and over the cap.
    let record = Some(pending(150, vec![key(1), key(2)]));
    assert_eq!(check_gates(&policy, &record, 1000), Err(ShieldWalletError::TimelockNotPassed));
    // Over the cap only.
    assert_eq!(check_gates(&policy, &record, 1060), Err(ShieldWalletError::MaxValueExceeded));
    let record = Some(pending(100, vec![key(1), key(2)]));
    assert_eq!(check_gates(&policy, &record, 1060), Ok(policy.whitelisted_targets[0]));
}

#[test]
fn gates_refuse_a_target_that_is_not_listed() {
    let mut record = pending(0, vec![key(1), key(2)]);
    record.call.program_id = key(41);
    assert_eq!(
        check_gates(&wallet(), &Some(record), 1060),
        Err(ShieldWalletError::TargetNotWhitelisted)
    );
}

#[test]
fn plan_pays_the_first_account_and_then_calls() {
    assert_eq!(
        plan_delegated_calls(&key(WALLET), &call(50)),
        Ok(DelegatedCalls {
            transfer: Some(payment(50)),
            program_id: key(TARGET),
            accounts: call(50).accounts,
            data: vec![1, 2, 3],
        })
    );
}

#[test]
fn plan_builds_the_transfer_for_the_system_program() {
    let calls = plan_delegated_calls(&key(WALLET), &call(258)).unwrap();
    let transfer = calls.transfer.unwrap();
    assert_eq!(transfer.recipient, key(50));
    assert_eq!(transfer.lamports, 258);
    assert_eq!(
        transfer.instruction,
        Instruction {
            program_id: system_program::ID,
            accounts: vec![AccountMeta::new(key(WALLET), true), AccountMeta::new(key(50), false)],
            data: vec![2, 0, 0, 0, 2, 1, 0, 0, 0, 0, 0, 0],
        }
    );
}

#[test]
fn plan_skips_the_transfer_of_nothing() {
    assert_eq!(
        plan_delegated_calls(&key(WALLET), &call(0)),
        Ok(DelegatedCalls {
            transfer: None,
            program_id: key(TARGET),
            accounts: call(0).accounts,
            data: vec![1, 2, 3],
        })
    );
    let bare = Call { program_id: key(TARGET), accounts: Vec::new(), data: Vec::new(), value: 0 };
    assert_eq!(
        plan_delegated_calls(&key(WALLET), &bare),
        Ok(DelegatedCalls {
            transfer: None,
            program_id: key(TARGET),
            accounts: Vec::new(),
            data: Vec::new(),
        })
    );
}

#[test]
fn plan_fails_where_nobody_is_named_to_be_paid() {
    let unpayable =
        Call { program_id: key(TARGET), accounts: Vec::new(), data: vec![1], value: 1 };
    assert_eq!(
        plan_delegated_calls(&key(WALLET), &unpayable),
        Err(ShieldWalletError::ExecutionFailed)
    );
}

#[test]
fn execute_returns_the_calls_and_keeps_the_record() {
    let ctx = execution(Some(pending(50, vec![key(1), key(2)])));
    let calls = execute_transaction(&ctx, 1060).unwrap();
    assert_eq!(calls.transfer, Some(payment(50)));
    assert_eq!(calls.program_id, key(TARGET));
    assert_eq!(calls.accounts, call(50).accounts);
    assert_eq!(calls.data, vec![1, 2, 3]);
    assert_eq!(ctx, execution(Some(pending(50, vec![key(1), key(2)]))));
}

#[test]
fn execute_refuses_what_a_gate_refuses() {
    assert_eq!(
        execute_transaction(&execution(None), 1060),
        Err(ShieldWalletError::TransactionDoesNotExist)
    );
    assert_eq!(
        execute_transaction(&execution(Some(pending(50, vec![key(1)]))), 1060),
        Err(ShieldWalletError::InsufficientApprovals)
    );
    assert_eq!(
        execute_transaction(&execution(Some(pending(50, vec![key(1), key(2)]))), 1059),
        Err(ShieldWalletError::TimelockNotPassed)
    );
    assert_eq!(
        execute_transaction(&execution(Some(pending(101, vec![key(1), key(2)]))), 1060),
        Err(ShieldWalletError::MaxValueExceeded)
    );
}

#[test]
fn execute_fails_where_nobody_is_named_to_be_paid() {
    let mut record = pending(50, vec![key(1), key(2)]);
    record.call.accounts = Vec::new();
    let mut ctx = execution(Some(record.clone()));
    assert_eq!(execute_transaction(&ctx, 1060), Err(ShieldWalletError::ExecutionFailed));
    assert_eq!(finalize_execution(&mut ctx, 1060, true), Err(ShieldWalletError::ExecutionFailed));
    assert_eq!(ctx, execution(Some(record)));
}

#[test]
fn finalize_removes_the_record_and_returns_the_receipt() {
    let mut ctx = execution(Some(pending(50, vec![key(1), key(2)])));
    assert_eq!(
        finalize_execution(&mut ctx, 1061, true),
        Ok(TransactionExecuted { tx_id: [7; 32], executor: key(9), timestamp: 1061 })
    );
    assert_eq!(ctx, execution(None));
}

#[test]
fn finalize_keeps_the_record_where_the_calls_were_not_delivered() {
    let mut ctx = execution(Some(pending(50, vec![key(1), key(2)])));
    assert_eq!(finalize_execution(&mut ctx, 1061, false), Err(ShieldWalletError::ExecutionFailed));
    assert_eq!(ctx, execution(Some(pending(50, vec![key(1), key(2)]))));
    // The caller may try again.
    assert!(execute_transaction(&ctx, 1061).is_ok());
    assert!(finalize_execution(&mut ctx, 1061, true).is_ok());
    assert_eq!(ctx.transaction, None);
}

#[test]
fn finalize_keeps_the_record_where_a_gate_fails() {
    for (record, now, error) in [
        (pending(50, vec![key(1)]), 1061, ShieldWalletError::InsufficientApprovals),
        (pending(50, vec![key(1), key(2)]), 1000, ShieldWalletError::TimelockNotPassed),
        (pending(150, vec![key(1), key(2)]), 1061, ShieldWalletError::MaxValueExceeded),
    ] {
        for delivered in [true, false] {
            let mut ctx = execution(Some(record.clone()));
            assert_eq!(finalize_execution(&mut ctx, now, delivered), Err(error));
            assert_eq!(ctx, execution(Some(record.clone())));
        }
    }
    let mut unlisted = pending(0, vec![key(1), key(2)]);
    unlisted.call.program_id = key(41);
    let mut ctx = execution(Some(unlisted.clone()));
    assert_eq!(
        finalize_execution(&mut ctx, 1061, true),
        Err(ShieldWalletError::TargetNotWhitelisted)
    );
    assert_eq!(ctx, execution(Some(unlisted)));
}

#[test]
fn finalize_without_a_record_does_not_exist() {
    let mut ctx = execution(None);
    assert_eq!(
        finalize_execution(&mut ctx, 1061, true),
        Err(ShieldWalletError::TransactionDoesNotExist)
    );
    assert_eq!(ctx, execution(None));
}

#[test]
fn execute_happens_once() {
    let mut ctx = execution(Some(pending(50, vec![key(1), key(2), key(3)])));
    assert!(execute_transaction(&ctx, 2000).is_ok());
    assert!(finalize_execution(&mut ctx, 2000, true).is_ok());
    assert_eq!(execute_transaction(&ctx, 2000), Err(ShieldWalletError::TransactionDoesNotExist));
    assert_eq!(
        finalize_execution(&mut ctx, 2000, true),
        Err(ShieldWalletError::TransactionDoesNotExist)
    );
    assert_eq!(ctx.transaction, None);
}
