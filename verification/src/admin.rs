use crate::errors::ShieldWalletError;
use crate::keys::{contains_key, distinct_keys, holds_key, lemma_push_keeps_distinct, same_key};
use crate::policy::{
    check_bounds, keys_are_distinct, ThresholdType, WalletConfig, WalletConfigView,
    WhitelistedTarget, MAX_OWNERS, MAX_WHITELISTED_TARGETS,
};
use anchor_lang::prelude::Pubkey;
use vstd::prelude::*;

verus! {

/// The record that the program keeps of itself.
#[derive(Clone, Copy, Debug, PartialEq, Eq)]
pub struct ProgramAuthority {
    pub bump: u8,
}

/// What `initialize` works on.
#[derive(Clone, Copy, Debug, PartialEq, Eq)]
pub struct Initialize {
    pub authority: Pubkey,
    pub program_authority: ProgramAuthority,
    /// The bump seed found for the program authority's address.
    pub bump: u8,
}

/// What `create_wallet` works on.
#[derive(Clone, Debug, PartialEq, Eq)]
pub struct CreateWallet {
    pub payer: Pubkey,
    /// The fresh policy record that the call fills in.
    pub wallet_config: WalletConfig,
    /// The bump seed found for the policy record's address.
    pub bump: u8,
}

/// What an administrator operation works on.
#[derive(Clone, Debug, PartialEq, Eq)]
pub struct ManageWallet {
    pub manager: Pubkey,
    pub wallet_config: WalletConfig,
    /// How many owner approvals were presented for the operation.
    pub signatures: usize,
}

/// The policy that a wallet starts with: the given owners and numbers, and an
/// empty allow-list.
pub open spec fn initial_policy(
    owners: Seq<Pubkey>,
    management_threshold: u8,
    execution_threshold: u8,
    revocation_threshold: u8,
    timelock_duration: i64,
    bump: u8,
) -> WalletConfigView {
    WalletConfigView {
        owners,
        management_threshold,
        execution_threshold,
        revocation_threshold,
        whitelisted_targets: Seq::empty(),
        timelock_duration,
        bump,
    }
}

/// Creating a wallet succeeds exactly when the policy asked for keeps the
/// invariant.
pub open spec fn create_wallet_outcome(
    owners: Seq<Pubkey>,
    management_threshold: u8,
    execution_threshold: u8,
    revocation_threshold: u8,
    timelock_duration: i64,
    bump: u8,
) -> Result<WalletConfigView, ShieldWalletError> {
    let policy = initial_policy(
        owners,
        management_threshold,
        execution_threshold,
        revocation_threshold,
        timelock_duration,
        bump,
    );
    if policy.well_formed() {
        Ok(policy)
    } else {
        Err(ShieldWalletError::InvalidThresholdValue)
    }
}

/// Adding an owner needs the management quorum, a key that is not an owner
/// yet, and a resulting policy that keeps the invariant.
pub open spec fn add_owner_outcome(
    policy: WalletConfigView,
    approvals: nat,
    new_owner: Pubkey,
) -> Result<WalletConfigView, ShieldWalletError> {
    if approvals < policy.management_threshold {
        Err(ShieldWalletError::InsufficientApprovals)
    } else if policy.is_owner(new_owner) {
        Err(ShieldWalletError::OwnerAlreadyExists)
    } else if !policy.with_owner(new_owner).well_formed() {
        Err(ShieldWalletError::InvalidThresholdValue)
    } else {
        Ok(policy.with_owner(new_owner))
    }
}

/// Changing a threshold needs the management quorum and a resulting policy
/// that keeps the invariant.
pub open spec fn change_threshold_outcome(
    policy: WalletConfigView,
    approvals: nat,
    threshold_type: ThresholdType,
    new_threshold: u8,
) -> Result<WalletConfigView, ShieldWalletError> {
    if approvals < policy.management_threshold {
        Err(ShieldWalletError::InsufficientApprovals)
    } else if !policy.with_threshold(threshold_type, new_threshold).well_formed() {
        Err(ShieldWalletError::InvalidThresholdValue)
    } else {
        Ok(policy.with_threshold(threshold_type, new_threshold))
    }
}

/// Adding an allow-list entry needs the management quorum and a resulting
/// policy that keeps the invariant.
pub open spec fn add_whitelisted_target_outcome(
    policy: WalletConfigView,
    approvals: nat,
    target: WhitelistedTarget,
) -> Result<WalletConfigView, ShieldWalletError> {
    if approvals < policy.management_threshold {
        Err(ShieldWalletError::InsufficientApprovals)
    } else if !policy.with_target(target).well_formed() {
        Err(ShieldWalletError::InvalidThresholdValue)
    } else {
        Ok(policy.with_target(target))
    }
}

/// Keys with one more appended are distinct exactly when they were distinct
/// and the new key was not among them.
pub proof fn lemma_distinct_after_push(keys: Seq<Pubkey>, key: Pubkey)
    ensures
        distinct_keys(keys.push(key)) <==> distinct_keys(keys) && !holds_key(keys, key),
{
    let grown = keys.push(key);
    if distinct_keys(keys) && !holds_key(keys, key) {
        lemma_push_keeps_distinct(keys, key);
    }
    if distinct_keys(grown) {
        assert forall|i: int, j: int| 0 <= i < j < keys.len() implies !same_key(
            #[trigger] keys[i],
            #[trigger] keys[j],
        ) by {
            assert(grown[i] == keys[i] && grown[j] == keys[j]);
        }
        assert forall|i: int| 0 <= i < keys.len() implies !same_key(
            #[trigger] keys[i],
            key,
        ) by {
            assert(grown[i] == keys[i] && grown[keys.len() as int] == key);
        }
    }
}

/// Records the bump seed of the program authority.
pub fn initialize(ctx: &mut Initialize)
    ensures
        final(ctx).program_authority.bump == old(ctx).bump,
        final(ctx).authority == old(ctx).authority,
        final(ctx).bump == old(ctx).bump,
{
    ctx.program_authority.bump = ctx.bump;
}

/// Fills in the policy of a new wallet, or refuses a policy that would break
/// the invariant and leaves the record as it was.
pub fn create_wallet(
    ctx: &mut CreateWallet,
    owners: Vec<Pubkey>,
    management_threshold: u8,
    execution_threshold: u8,
    revocation_threshold: u8,
    timelock_duration: i64,
) -> (res: Result<(), ShieldWalletError>)
    ensures
        match res {
            Ok(()) => {
                &&& create_wallet_outcome(
                    owners@,
                    management_threshold,
                    execution_threshold,
                    revocation_threshold,
                    timelock_duration,
                    old(ctx).bump,
                ) == Ok::<WalletConfigView, ShieldWalletError>(final(ctx).wallet_config@)
                &&& final(ctx).wallet_config@.well_formed()
                &&& final(ctx).payer == old(ctx).payer
                &&& final(ctx).bump == old(ctx).bump
            },
            Err(e) => {
                &&& create_wallet_outcome(
                    owners@,
                    management_threshold,
                    execution_threshold,
                    revocation_threshold,
                    timelock_duration,
                    old(ctx).bump,
                ) == Err::<WalletConfigView, ShieldWalletError>(e)
                &&& *final(ctx) == *old(ctx)
            },
        },
{
    if !check_bounds(
        owners.len(),
        management_threshold,
        execution_threshold,
        revocation_threshold,
        0,
        timelock_duration,
    ) || !keys_are_distinct(&owners) {
        return Err(ShieldWalletError::InvalidThresholdValue);
    }
    ctx.wallet_config.owners = owners;
    ctx.wallet_config.management_threshold = management_threshold;
    ctx.wallet_config.execution_threshold = execution_threshold;
    ctx.wallet_config.revocation_threshold = revocation_threshold;
    ctx.wallet_config.whitelisted_targets = Vec::new();
    ctx.wallet_config.timelock_duration = timelock_duration;
    ctx.wallet_config.bump = ctx.bump;
    assert(ctx.wallet_config@.whitelisted_targets =~= Seq::empty());
    Ok(())
}

/// Adds an allow-list entry at the end of the list, where the management
/// quorum was presented and the list has room.
pub fn add_whitelisted_target(ctx: &mut ManageWallet, target: WhitelistedTarget) -> (res: Result<
    (),
    ShieldWalletError,
>)
    ensures
        match res {
            Ok(()) => {
                &&& add_whitelisted_target_outcome(
                    old(ctx).wallet_config@,
                    old(ctx).signatures as nat,
                    target,
                ) == Ok::<WalletConfigView, ShieldWalletError>(final(ctx).wallet_config@)
                &&& final(ctx).wallet_config@.well_formed()
                &&& final(ctx).manager == old(ctx).manager
                &&& final(ctx).signatures == old(ctx).signatures
            },
            Err(e) => {
                &&& add_whitelisted_target_outcome(
                    old(ctx).wallet_config@,
                    old(ctx).signatures as nat,
                    target,
                ) == Err::<WalletConfigView, ShieldWalletError>(e)
                &&& *final(ctx) == *old(ctx)
            },
        },
{
    if ctx.signatures < ctx.wallet_config.management_threshold as usize {
        return Err(ShieldWalletError::InsufficientApprovals);
    }
    let config = &ctx.wallet_config;
    if config.whitelisted_targets.len() >= MAX_WHITELISTED_TARGETS || !check_bounds(
        config.owners.len(),
        config.management_threshold,
        config.execution_threshold,
        config.revocation_threshold,
        config.whitelisted_targets.len() + 1,
        config.timelock_duration,
    ) || !keys_are_distinct(&config.owners) {
        return Err(ShieldWalletError::InvalidThresholdValue);
    }
    ctx.wallet_config.whitelisted_targets.push(target);
    Ok(())
}

/// Adds an owner at the end of the owner list, where the management quorum was
/// presented, the key is new and the list has room.
pub fn add_owner(ctx: &mut ManageWallet, new_owner: Pubkey) -> (res: Result<
    (),
    ShieldWalletError,
>)
    ensures
        match res {
            Ok(()) => {
                &&& add_owner_outcome(
                    old(ctx).wallet_config@,
                    old(ctx).signatures as nat,
                    new_owner,
                ) == Ok::<WalletConfigView, ShieldWalletError>(final(ctx).wallet_config@)
                &&& final(ctx).wallet_config@.well_formed()
                &&& final(ctx).manager == old(ctx).manager
                &&& final(ctx).signatures == old(ctx).signatures
            },
            Err(e) => {
                &&& add_owner_outcome(
                    old(ctx).wallet_config@,
                    old(ctx).signatures as nat,
                    new_owner,
                ) == Err::<WalletConfigView, ShieldWalletError>(e)
                &&& *final(ctx) == *old(ctx)
            },
        },
{
    if ctx.signatures < ctx.wallet_config.management_threshold as usize {
        return Err(ShieldWalletError::InsufficientApprovals);
    }
    let config = &ctx.wallet_config;
    if contains_key(&config.owners, &new_owner) {
        return Err(ShieldWalletError::OwnerAlreadyExists);
    }
    proof {
        lemma_distinct_after_push(config.owners@, new_owner);
    }
    if config.owners.len() >= MAX_OWNERS || !check_bounds(
        config.owners.len() + 1,
        config.management_threshold,
        config.execution_threshold,
        config.revocation_threshold,
        config.whitelisted_targets.len(),
        config.timelock_duration,
    ) || !keys_are_distinct(&config.owners) {
        return Err(ShieldWalletError::InvalidThresholdValue);
    }
    ctx.wallet_config.owners.push(new_owner);
    Ok(())
}

/// Replaces the threshold of the given kind, where the management quorum was
/// presented and the new value lies between one and the number of owners.
pub fn change_threshold(
    ctx: &mut ManageWallet,
    threshold_type: ThresholdType,
    new_threshold: u8,
) -> (res: Result<(), ShieldWalletError>)
    ensures
        match res {
            Ok(()) => {
                &&& change_threshold_outcome(
                    old(ctx).wallet_config@,
                    old(ctx).signatures as nat,
                    threshold_type,
                    new_threshold,
                ) == Ok::<WalletConfigView, ShieldWalletError>(final(ctx).wallet_config@)
                &&& final(ctx).wallet_config@.well_formed()
                &&& final(ctx).manager == old(ctx).manager
                &&& final(ctx).signatures == old(ctx).signatures
            },
            Err(e) => {
                &&& change_threshold_outcome(
                    old(ctx).wallet_config@,
                    old(ctx).signatures as nat,
                    threshold_type,
                    new_threshold,
                ) == Err::<WalletConfigView, ShieldWalletError>(e)
                &&& *final(ctx) == *old(ctx)
            },
        },
{
    if ctx.signatures < ctx.wallet_config.management_threshold as usize {
        return Err(ShieldWalletError::InsufficientApprovals);
    }
    let config = &ctx.wallet_config;
    let management = match threshold_type {
        ThresholdType::Management => new_threshold,
        _ => config.management_threshold,
    };
    let execution = match threshold_type {
        ThresholdType::Execution => new_threshold,
        _ => config.execution_threshold,
    };
    let revocation = match threshold_type {
        ThresholdType::Revocation => new_threshold,
        _ => config.revocation_threshold,
    };
    if !check_bounds(
        config.owners.len(),
        management,
        execution,
        revocation,
        config.whitelisted_targets.len(),
        config.timelock_duration,
    ) || !keys_are_distinct(&config.owners) {
        return Err(ShieldWalletError::InvalidThresholdValue);
    }
    match threshold_type {
        ThresholdType::Management => ctx.wallet_config.management_threshold = new_threshold,
        ThresholdType::Execution => ctx.wallet_config.execution_threshold = new_threshold,
        ThresholdType::Revocation => ctx.wallet_config.revocation_threshold = new_threshold,
    }
    Ok(())
}

} // verus!
