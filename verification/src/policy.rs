use crate::keys::{contains_key, distinct_keys, holds_key, keys_equal, same_key};
use anchor_lang::prelude::Pubkey;
use vstd::prelude::*;

verus! {

/// The most owners a wallet can have.
pub const MAX_OWNERS: usize = 10;

/// The most entries an allow-list can have.
pub const MAX_WHITELISTED_TARGETS: usize = 20;

/// The three classes of action, each with a quorum of its own.
#[derive(Clone, Copy, Debug, PartialEq, Eq, Structural)]
pub enum ThresholdType {
    Management,
    Execution,
    Revocation,
}

/// One allow-list entry: a program the wallet may call, and how much value a
/// single call to it may move.
#[derive(Clone, Copy, Debug, PartialEq, Eq)]
pub struct WhitelistedTarget {
    /// The program that may be called.
    pub program_id: Pubkey,
    /// `None` admits every call to the program; `Some` admits only a payload
    /// that starts with these eight bytes.
    pub instruction_discriminator: Option<[u8; 8]>,
    /// The most lamports one call may move, inclusive.
    pub max_value: u64,
}

/// The policy of one wallet: who owns it, how many owners must agree to each
/// class of action, what it may call and how long a proposal must wait.
#[derive(Clone, Debug, PartialEq, Eq)]
pub struct WalletConfig {
    pub owners: Vec<Pubkey>,
    pub management_threshold: u8,
    pub execution_threshold: u8,
    pub revocation_threshold: u8,
    pub whitelisted_targets: Vec<WhitelistedTarget>,
    /// Seconds between a proposal and its earliest execution.
    pub timelock_duration: i64,
    pub bump: u8,
}

/// A policy as a mathematical value.
pub struct WalletConfigView {
    pub owners: Seq<Pubkey>,
    pub management_threshold: u8,
    pub execution_threshold: u8,
    pub revocation_threshold: u8,
    pub whitelisted_targets: Seq<WhitelistedTarget>,
    pub timelock_duration: i64,
    pub bump: u8,
}

/// A threshold is usable when at least one and at most every owner must agree.
pub open spec fn valid_threshold(threshold: u8, owner_count: nat) -> bool {
    1 <= threshold <= owner_count
}

/// The bounds of a policy that depend on sizes and numbers alone.
pub open spec fn bounds_hold(
    owner_count: nat,
    management_threshold: u8,
    execution_threshold: u8,
    revocation_threshold: u8,
    target_count: nat,
    timelock_duration: i64,
) -> bool {
    &&& 1 <= owner_count <= MAX_OWNERS
    &&& valid_threshold(management_threshold, owner_count)
    &&& valid_threshold(execution_threshold, owner_count)
    &&& valid_threshold(revocation_threshold, owner_count)
    &&& target_count <= MAX_WHITELISTED_TARGETS
    &&& timelock_duration >= 0
}

impl WalletConfigView {
    /// The invariant of a policy: between one and ten distinct owners, every
    /// threshold between one and the number of owners, at most twenty
    /// allow-list entries, and a timelock that is not negative.
    pub open spec fn well_formed(self) -> bool {
        &&& bounds_hold(
            self.owners.len(),
            self.management_threshold,
            self.execution_threshold,
            self.revocation_threshold,
            self.whitelisted_targets.len(),
            self.timelock_duration,
        )
        &&& distinct_keys(self.owners)
    }

    pub open spec fn is_owner(self, key: Pubkey) -> bool {
        holds_key(self.owners, key)
    }

    /// The threshold of the given kind.
    pub open spec fn threshold(self, kind: ThresholdType) -> u8 {
        match kind {
            ThresholdType::Management => self.management_threshold,
            ThresholdType::Execution => self.execution_threshold,
            ThresholdType::Revocation => self.revocation_threshold,
        }
    }

    /// The policy with `key` appended to its owners.
    pub open spec fn with_owner(self, key: Pubkey) -> Self {
        WalletConfigView { owners: self.owners.push(key), ..self }
    }

    /// The policy with the threshold of the given kind replaced.
    pub open spec fn with_threshold(self, kind: ThresholdType, value: u8) -> Self {
        match kind {
            ThresholdType::Management => WalletConfigView { management_threshold: value, ..self },
            ThresholdType::Execution => WalletConfigView { execution_threshold: value, ..self },
            ThresholdType::Revocation => WalletConfigView { revocation_threshold: value, ..self },
        }
    }

    /// The policy with `target` appended to its allow-list.
    pub open spec fn with_target(self, target: WhitelistedTarget) -> Self {
        WalletConfigView { whitelisted_targets: self.whitelisted_targets.push(target), ..self }
    }
}

impl View for WalletConfig {
    type V = WalletConfigView;

    open spec fn view(&self) -> WalletConfigView {
        WalletConfigView {
            owners: self.owners@,
            management_threshold: self.management_threshold,
            execution_threshold: self.execution_threshold,
            revocation_threshold: self.revocation_threshold,
            whitelisted_targets: self.whitelisted_targets@,
            timelock_duration: self.timelock_duration,
            bump: self.bump,
        }
    }
}

/// Whether the numbers of a policy are within their bounds.
pub fn check_bounds(
    owner_count: usize,
    management_threshold: u8,
    execution_threshold: u8,
    revocation_threshold: u8,
    target_count: usize,
    timelock_duration: i64,
) -> (ok: bool)
    ensures
        ok == bounds_hold(
            owner_count as nat,
            management_threshold,
            execution_threshold,
            revocation_threshold,
            target_count as nat,
            timelock_duration,
        ),
{
    1 <= owner_count && owner_count <= MAX_OWNERS
        && 1 <= management_threshold && management_threshold as usize <= owner_count
        && 1 <= execution_threshold && execution_threshold as usize <= owner_count
        && 1 <= revocation_threshold && revocation_threshold as usize <= owner_count
        && target_count <= MAX_WHITELISTED_TARGETS
        && timelock_duration >= 0
}

/// Whether no principal occurs twice in `keys`.
pub fn keys_are_distinct(keys: &Vec<Pubkey>) -> (distinct: bool)
    ensures
        distinct == distinct_keys(keys@),
{
    let mut j: usize = 0;
    while j < keys.len()
        invariant
            j <= keys.len(),
            forall|a: int, b: int|
                0 <= a < b < j ==> !same_key(#[trigger] keys@[a], #[trigger] keys@[b]),
        decreases keys.len() - j,
    {
        let mut i: usize = 0;
        while i < j
            invariant
                i <= j < keys.len(),
                forall|a: int| 0 <= a < i ==> !same_key(#[trigger] keys@[a], keys@[j as int]),
            decreases j - i,
        {
            if keys_equal(&keys[i], &keys[j]) {
                return false;
            }
            i += 1;
        }
        j += 1;
    }
    true
}

impl WalletConfig {
    /// Whether `key` is one of the wallet's owners.
    pub fn is_owner(&self, key: Pubkey) -> (found: bool)
        ensures
            found == self@.is_owner(key),
    {
        contains_key(&self.owners, &key)
    }

    /// Whether the policy keeps its invariant.
    pub fn is_well_formed(&self) -> (ok: bool)
        ensures
            ok == self@.well_formed(),
    {
        check_bounds(
            self.owners.len(),
            self.management_threshold,
            self.execution_threshold,
            self.revocation_threshold,
            self.whitelisted_targets.len(),
            self.timelock_duration,
        ) && keys_are_distinct(&self.owners)
    }
}

} // verus!
