use crate::admin::{
    add_owner_outcome, add_whitelisted_target_outcome, change_threshold_outcome,
    create_wallet_outcome,
};
use crate::errors::ShieldWalletError;
use crate::gates::{
    is_first_match, lemma_first_match_is, selector_admits, some_target_matches, target_matches,
    whitelist_verdict,
};
use crate::keys::{holds_key, same_key};
use crate::lifecycle::{
    approve_outcome, execute_outcome, finalize_outcome, gates_verdict, propose_outcome,
    slot_after_execution, DelegatedCallsView,
};
use crate::policy::{valid_threshold, ThresholdType, WalletConfigView, WhitelistedTarget};
use crate::transaction::{CallView, TransactionExecuted, TransactionView};
use anchor_lang::prelude::Pubkey;
use vstd::prelude::*;

verus! {

/// One request to the administrator, with the number of owner approvals that
/// came with it.
pub enum AdminOperation {
    AddOwner { approvals: nat, new_owner: Pubkey },
    ChangeThreshold { approvals: nat, threshold_type: ThresholdType, new_threshold: u8 },
    AddWhitelistedTarget { approvals: nat, target: WhitelistedTarget },
}

/// What the administrator answers to a request.
pub open spec fn administer_outcome(policy: WalletConfigView, operation: AdminOperation) -> Result<
    WalletConfigView,
    ShieldWalletError,
> {
    match operation {
        AdminOperation::AddOwner { approvals, new_owner } => add_owner_outcome(
            policy,
            approvals,
            new_owner,
        ),
        AdminOperation::ChangeThreshold {
            approvals,
            threshold_type,
            new_threshold,
        } => change_threshold_outcome(policy, approvals, threshold_type, new_threshold),
        AdminOperation::AddWhitelistedTarget {
            approvals,
            target,
        } => add_whitelisted_target_outcome(policy, approvals, target),
    }
}

/// The policy after a request: the new one where the request was granted, the
/// old one where it was refused.
pub open spec fn administer(policy: WalletConfigView, operation: AdminOperation) -> WalletConfigView {
    match administer_outcome(policy, operation) {
        Ok(next) => next,
        Err(_) => policy,
    }
}

/// The policy after a run of requests, taken in order.
pub open spec fn administer_all(
    policy: WalletConfigView,
    operations: Seq<AdminOperation>,
) -> WalletConfigView
    decreases operations.len(),
{
    if operations.len() == 0 {
        policy
    } else {
        administer(administer_all(policy, operations.drop_last()), operations.last())
    }
}

/// All three thresholds lie between one and the number of owners.
pub open spec fn thresholds_in_range(policy: WalletConfigView) -> bool {
    &&& valid_threshold(policy.management_threshold, policy.owners.len())
    &&& valid_threshold(policy.execution_threshold, policy.owners.len())
    &&& valid_threshold(policy.revocation_threshold, policy.owners.len())
}

/// A wallet that was created starts with a policy that keeps the invariant.
pub proof fn law_created_policy_is_well_formed(
    owners: Seq<Pubkey>,
    management_threshold: u8,
    execution_threshold: u8,
    revocation_threshold: u8,
    timelock_duration: i64,
    bump: u8,
)
    ensures
        match create_wallet_outcome(
            owners,
            management_threshold,
            execution_threshold,
            revocation_threshold,
            timelock_duration,
            bump,
        ) {
            Ok(policy) => policy.well_formed() && thresholds_in_range(policy),
            Err(e) => e == ShieldWalletError::InvalidThresholdValue,
        },
{
}

/// Whatever requests reach the administrator, granted or refused, and in
/// whatever order: a policy that keeps the invariant goes on keeping it, and
/// each of its thresholds stays between one and the number of owners.
pub proof fn law_thresholds_stay_in_range(
    policy: WalletConfigView,
    operations: Seq<AdminOperation>,
)
    requires
        policy.well_formed(),
    ensures
        administer_all(policy, operations).well_formed(),
        thresholds_in_range(administer_all(policy, operations)),
    decreases operations.len(),
{
    if operations.len() > 0 {
        law_thresholds_stay_in_range(policy, operations.drop_last());
    }
}

/// The administrator only ever adds: after any run of requests every earlier
/// owner is still an owner.
pub proof fn law_owners_are_kept(
    policy: WalletConfigView,
    operations: Seq<AdminOperation>,
    owner: Pubkey,
)
    requires
        policy.is_owner(owner),
    ensures
        administer_all(policy, operations).is_owner(owner),
    decreases operations.len(),
{
    if operations.len() > 0 {
        let before = administer_all(policy, operations.drop_last());
        law_owners_are_kept(policy, operations.drop_last(), owner);
        let i = choose|i: int| 0 <= i < before.owners.len() && same_key(before.owners[i], owner);
        let after = administer(before, operations.last());
        assert(after.owners.len() >= before.owners.len());
        assert(after.owners[i] == before.owners[i]);
    }
}

/// A proposal carries its proposer's approval and no other.
pub proof fn law_proposal_has_one_approval(
    policy: WalletConfigView,
    slot: Option<TransactionView>,
    proposer: Pubkey,
    tx_id: [u8; 32],
    call: CallView,
    now: i64,
    bump: u8,
)
    requires
        propose_outcome(policy, slot, proposer, tx_id, call, now, bump) is Ok,
    ensures
        ({
            let record = propose_outcome(policy, slot, proposer, tx_id, call, now, bump)->Ok_0;
            &&& record.approvals.len() == 1
            &&& holds_key(record.approvals, proposer)
            &&& record.proposed_at == now
            &&& record.call == call
        }),
{
    let record = propose_outcome(policy, slot, proposer, tx_id, call, now, bump)->Ok_0;
    assert(same_key(record.approvals[0], proposer));
}

/// What is stored under the identifier after an approval was asked for: the
/// record with the approval where it was taken, and what was there before
/// where it was refused.
pub open spec fn slot_after_approval(
    policy: WalletConfigView,
    slot: Option<TransactionView>,
    approver: Pubkey,
) -> Option<TransactionView> {
    match approve_outcome(policy, slot, approver) {
        Ok(record) => Some(record),
        Err(_) => slot,
    }
}

/// An owner who approves a pending transaction twice is counted once: the
/// second approval is refused as already given. Whoever asks, and whatever is
/// stored, asking twice leaves what asking once left, the number of approvals
/// with it.
pub proof fn law_no_double_approval(
    policy: WalletConfigView,
    slot: Option<TransactionView>,
    approver: Pubkey,
)
    ensures
        ({
            let once = slot_after_approval(policy, slot, approver);
            let twice = slot_after_approval(policy, once, approver);
            &&& twice == once
            &&& once is Some ==> twice->0.approvals.len() == once->0.approvals.len()
            &&& policy.is_owner(approver) && slot is Some ==> {
                &&& once is Some
                &&& holds_key(once->0.approvals, approver)
                &&& approve_outcome(policy, once, approver) == Err::<
                    TransactionView,
                    ShieldWalletError,
                >(ShieldWalletError::SignerAlreadyApproved)
            }
        }),
{
    let once = slot_after_approval(policy, slot, approver);
    if approve_outcome(policy, slot, approver) is Ok {
        let record = once->0;
        assert(same_key(record.approvals[record.approvals.len() - 1], approver));
    }
}

/// An approval that is taken adds exactly the approver and changes nothing
/// else of the record.
pub proof fn law_approval_adds_one(
    policy: WalletConfigView,
    slot: Option<TransactionView>,
    approver: Pubkey,
)
    requires
        approve_outcome(policy, slot, approver) is Ok,
    ensures
        ({
            let before = slot->0;
            let after = approve_outcome(policy, slot, approver)->Ok_0;
            &&& slot is Some
            &&& after.approvals.len() == before.approvals.len() + 1
            &&& after.approvals == before.approvals.push(approver)
            &&& after.call == before.call
            &&& after.tx_id == before.tx_id
            &&& after.proposed_at == before.proposed_at
        }),
{
}

/// An execution that fails at a gate changes nothing: what is stored under the
/// identifier afterwards is what was stored before, and no call is asked for.
pub proof fn law_failed_gate_keeps_record(
    policy: WalletConfigView,
    slot: Option<TransactionView>,
    wallet: Pubkey,
    executor: Pubkey,
    now: i64,
    delivered: bool,
)
    requires
        gates_verdict(policy, slot, now) is Err,
    ensures
        slot_after_execution(policy, slot, executor, now, delivered) == slot,
        execute_outcome(policy, slot, wallet, now) == Err::<DelegatedCallsView, ShieldWalletError>(
            gates_verdict(policy, slot, now)->Err_0,
        ),
        finalize_outcome(policy, slot, executor, now, delivered) == Err::<
            TransactionExecuted,
            ShieldWalletError,
        >(gates_verdict(policy, slot, now)->Err_0),
{
}

/// An execution that fails for any reason, a call that was not delivered
/// among them, leaves the record as it was.
pub proof fn law_failed_execution_keeps_record(
    policy: WalletConfigView,
    slot: Option<TransactionView>,
    executor: Pubkey,
    now: i64,
    delivered: bool,
)
    requires
        finalize_outcome(policy, slot, executor, now, delivered) is Err,
    ensures
        slot_after_execution(policy, slot, executor, now, delivered) == slot,
{
}

/// A transaction is executed at most once: after an execution that succeeded
/// nothing is stored under the identifier, so that every later request,
/// whoever makes it, whenever, and under whatever policy, is refused as not
/// existing and asks for no call.
pub proof fn law_execute_is_one_shot(
    policy: WalletConfigView,
    slot: Option<TransactionView>,
    executor: Pubkey,
    now: i64,
    delivered: bool,
    later_policy: WalletConfigView,
    later_wallet: Pubkey,
    later_executor: Pubkey,
    later: i64,
    later_delivered: bool,
)
    requires
        finalize_outcome(policy, slot, executor, now, delivered) is Ok,
    ensures
        ({
            let left = slot_after_execution(policy, slot, executor, now, delivered);
            &&& delivered
            &&& left is None
            &&& execute_outcome(later_policy, left, later_wallet, later) == Err::<
                DelegatedCallsView,
                ShieldWalletError,
            >(ShieldWalletError::TransactionDoesNotExist)
            &&& finalize_outcome(later_policy, left, later_executor, later, later_delivered)
                == Err::<TransactionExecuted, ShieldWalletError>(
                ShieldWalletError::TransactionDoesNotExist,
            )
            &&& slot_after_execution(later_policy, left, later_executor, later, later_delivered)
                is None
        }),
{
}

/// The receipt of an execution names the transaction, the executor and the
/// time of the execution.
pub proof fn law_receipt_names_the_execution(
    policy: WalletConfigView,
    slot: Option<TransactionView>,
    executor: Pubkey,
    now: i64,
    delivered: bool,
)
    requires
        finalize_outcome(policy, slot, executor, now, delivered) is Ok,
    ensures
        ({
            let receipt = finalize_outcome(policy, slot, executor, now, delivered)->Ok_0;
            &&& slot is Some
            &&& receipt.tx_id == slot->0.tx_id
            &&& receipt.executor == executor
            &&& receipt.timestamp == now
        }),
{
}

/// The first entry that matches decides alone: the call passes exactly when
/// its value is within that entry's cap, whatever later entries would allow.
pub proof fn law_first_match_decides(targets: Seq<WhitelistedTarget>, call: CallView, i: int)
    requires
        is_first_match(targets, call, i),
    ensures
        whitelist_verdict(targets, call) == if call.value > targets[i].max_value {
            Err::<WhitelistedTarget, ShieldWalletError>(ShieldWalletError::MaxValueExceeded)
        } else {
            Ok::<WhitelistedTarget, ShieldWalletError>(targets[i])
        },
{
    lemma_first_match_is(targets, call, i);
}

/// A call whose payload is admitted by the selector of no entry for its
/// program is not whitelisted. It is never refused for its value, whatever the
/// caps of those entries are.
pub proof fn law_selector_mismatch_is_not_whitelisted(
    targets: Seq<WhitelistedTarget>,
    call: CallView,
)
    requires
        forall|i: int|
            0 <= i < targets.len() && same_key((#[trigger] targets[i]).program_id, call.program_id)
                ==> !selector_admits(targets[i].instruction_discriminator, call.data),
    ensures
        whitelist_verdict(targets, call) == Err::<WhitelistedTarget, ShieldWalletError>(
            ShieldWalletError::TargetNotWhitelisted,
        ),
{
    assert(!some_target_matches(targets, call)) by {
        if some_target_matches(targets, call) {
            let i = choose|i: int| 0 <= i < targets.len() && target_matches(targets[i], call);
            assert(same_key(targets[i].program_id, call.program_id));
        }
    }
}

/// A selector admits no payload of fewer than eight bytes.
pub proof fn law_short_payload_meets_no_selector(selector: [u8; 8], data: Seq<u8>)
    requires
        data.len() < 8,
    ensures
        !selector_admits(Some(selector), data),
{
}

} // verus!
