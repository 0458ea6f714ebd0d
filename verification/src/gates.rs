use crate::errors::ShieldWalletError;
use crate::keys::{keys_equal, same_key};
use crate::policy::WhitelistedTarget;
use crate::transaction::{Call, CallView};
use anchor_lang::prelude::Pubkey;
use vstd::prelude::*;

verus! {

/// A set of approvals satisfies a threshold when it has at least that many
/// members.
pub open spec fn quorum_reached(approval_count: nat, threshold: u8) -> bool {
    approval_count >= threshold
}

/// A proposal is released once the timelock has run out since it was made.
pub open spec fn timelock_released(now: i64, proposed_at: i64, timelock_duration: i64) -> bool {
    now >= proposed_at + timelock_duration
}

/// A payload is admitted by an absent selector, or by one that equals its first
/// eight bytes. A payload shorter than that is admitted by no selector.
pub open spec fn selector_admits(selector: Option<[u8; 8]>, data: Seq<u8>) -> bool {
    match selector {
        None => true,
        Some(bytes) => data.len() >= 8 && data.subrange(0, 8) == bytes@,
    }
}

/// An entry matches a call to its program whose payload its selector admits.
pub open spec fn target_matches(target: WhitelistedTarget, call: CallView) -> bool {
    same_key(target.program_id, call.program_id) && selector_admits(
        target.instruction_discriminator,
        call.data,
    )
}

/// Some entry of the list matches the call.
pub open spec fn some_target_matches(targets: Seq<WhitelistedTarget>, call: CallView) -> bool {
    exists|i: int| 0 <= i < targets.len() && target_matches(#[trigger] targets[i], call)
}

/// Entry `i` matches the call and no earlier entry does.
pub open spec fn is_first_match(targets: Seq<WhitelistedTarget>, call: CallView, i: int) -> bool {
    &&& 0 <= i < targets.len()
    &&& target_matches(targets[i], call)
    &&& forall|j: int| 0 <= j < i ==> !target_matches(#[trigger] targets[j], call)
}

/// The position of the first entry that matches the call, where there is one.
pub open spec fn first_match(targets: Seq<WhitelistedTarget>, call: CallView) -> int {
    choose|i: int| is_first_match(targets, call, i)
}

/// What the allow-list says of a call: the first matching entry, in the order
/// the entries were added, decides. Without one the target is not whitelisted;
/// with one, the call may move no more than that entry's cap.
pub open spec fn whitelist_verdict(targets: Seq<WhitelistedTarget>, call: CallView) -> Result<
    WhitelistedTarget,
    ShieldWalletError,
> {
    if !some_target_matches(targets, call) {
        Err(ShieldWalletError::TargetNotWhitelisted)
    } else if call.value > targets[first_match(targets, call)].max_value {
        Err(ShieldWalletError::MaxValueExceeded)
    } else {
        Ok(targets[first_match(targets, call)])
    }
}

/// The first match is the only position that matches with nothing matching
/// before it.
pub proof fn lemma_first_match_is(targets: Seq<WhitelistedTarget>, call: CallView, i: int)
    requires
        is_first_match(targets, call, i),
    ensures
        some_target_matches(targets, call),
        first_match(targets, call) == i,
{
    let chosen = first_match(targets, call);
    assert(is_first_match(targets, call, chosen));
    if chosen < i {
        assert(!target_matches(targets[chosen], call));
    } else if i < chosen {
        assert(!target_matches(targets[i], call));
    }
}

/// Whether the approvals gathered so far satisfy `threshold`.
pub fn satisfies_threshold(approvals: &Vec<Pubkey>, threshold: u8) -> (reached: bool)
    ensures
        reached == quorum_reached(approvals@.len(), threshold),
{
    approvals.len() >= threshold as usize
}

/// The timelock gate: passes from `proposed_at + timelock_duration` on.
pub fn check_timelock(now: i64, proposed_at: i64, timelock_duration: i64) -> (res: Result<
    (),
    ShieldWalletError,
>)
    ensures
        res is Ok <==> timelock_released(now, proposed_at, timelock_duration),
        res is Err ==> res == Err::<(), ShieldWalletError>(ShieldWalletError::TimelockNotPassed),
{
    if now as i128 >= proposed_at as i128 + timelock_duration as i128 {
        Ok(())
    } else {
        Err(ShieldWalletError::TimelockNotPassed)
    }
}

/// Whether `selector` admits the payload `data`.
pub fn selector_allows(selector: &Option<[u8; 8]>, data: &Vec<u8>) -> (admitted: bool)
    ensures
        admitted == selector_admits(*selector, data@),
{
    match selector {
        None => true,
        Some(bytes) => {
            if data.len() < 8 {
                return false;
            }
            let mut i: usize = 0;
            while i < 8
                invariant
                    i <= 8 <= data.len(),
                    *selector == Some(*bytes),
                    forall|k: int| 0 <= k < i ==> data@[k] == bytes@[k],
                decreases 8 - i,
            {
                if data[i] != bytes[i] {
                    assert(data@.subrange(0, 8) != bytes@) by {
                        assert(data@.subrange(0, 8)[i as int] == data@[i as int]);
                    }
                    return false;
                }
                i += 1;
            }
            assert(data@.subrange(0, 8) =~= bytes@);
            true
        },
    }
}

/// The allow-list gate: finds the first entry that matches the call and holds
/// the call's value against that entry's cap.
pub fn check_whitelist(call: &Call, targets: &Vec<WhitelistedTarget>) -> (res: Result<
    WhitelistedTarget,
    ShieldWalletError,
>)
    ensures
        res == whitelist_verdict(targets@, call@),
{
    let mut i: usize = 0;
    while i < targets.len()
        invariant
            i <= targets.len(),
            forall|j: int| 0 <= j < i ==> !target_matches(#[trigger] targets@[j], call@),
        decreases targets.len() - i,
    {
        let target = targets[i];
        if keys_equal(&target.program_id, &call.program_id) && selector_allows(
            &target.instruction_discriminator,
            &call.data,
        ) {
            proof {
                lemma_first_match_is(targets@, call@, i as int);
            }
            if call.value > target.max_value {
                return Err(ShieldWalletError::MaxValueExceeded);
            }
            return Ok(target);
        }
        i += 1;
    }
    Err(ShieldWalletError::TargetNotWhitelisted)
}

} // verus!
