//! What the wallet does in its own name: the seeds it signs with, and the
//! transfer it pays with.

use crate::keys::{key_bytes, key_to_bytes};
use crate::policy::{WalletConfig, WalletConfigView};
use anchor_lang::prelude::Pubkey;
use anchor_lang::solana_program::instruction::Instruction;
use anchor_lang::solana_program::system_instruction;
use vstd::prelude::*;

verus! {

/// `Instruction`, a call to a program as the runtime takes it. The library
/// builds one and hands it on; it never looks inside.
#[verifier::external_type_specification]
#[verifier::external_body]
pub struct ExInstruction(Instruction);

/// The instruction that `system_instruction::transfer` builds to move
/// `lamports` from the address with the bytes `from` to the address with the
/// bytes `to`.
pub uninterp spec fn system_transfer(from: Seq<u8>, to: Seq<u8>, lamports: u64) -> Instruction;

/// Builds a transfer with `system_instruction::transfer`, which computes the
/// instruction from the two addresses and the amount and from nothing else.
#[verifier::external_body]
pub(crate) fn transfer_instruction(from: &Pubkey, to: &Pubkey, lamports: u64) -> (instruction:
    Instruction)
    ensures
        instruction == system_transfer(key_bytes(*from), key_bytes(*to), lamports),
{
    system_instruction::transfer(from, to, lamports)
}

/// The bytes of the word `wallet`, the first seed of every wallet's address.
pub open spec fn wallet_seed_prefix() -> Seq<u8> {
    seq![119u8, 97u8, 108u8, 108u8, 101u8, 116u8]
}

/// The seeds from which a wallet's own address is derived, and with which it
/// signs what is done in its name: the prefix, the first owner's address and
/// the bump seed.
pub open spec fn signer_seeds_of(policy: WalletConfigView) -> Seq<Seq<u8>> {
    seq![wallet_seed_prefix(), key_bytes(policy.owners[0]), seq![policy.bump]]
}

/// The byte strings that a list of seeds holds.
pub open spec fn seeds_view(seeds: Seq<Vec<u8>>) -> Seq<Seq<u8>> {
    seeds.map_values(|seed: Vec<u8>| seed@)
}

impl WalletConfig {
    /// The seeds with which the wallet signs.
    pub fn signer_seeds(&self) -> (seeds: Vec<Vec<u8>>)
        requires
            self@.owners.len() > 0,
        ensures
            seeds_view(seeds@) == signer_seeds_of(self@),
    {
        let mut prefix: Vec<u8> = Vec::new();
        prefix.push(119u8);
        prefix.push(97u8);
        prefix.push(108u8);
        prefix.push(108u8);
        prefix.push(101u8);
        prefix.push(116u8);
        assert(prefix@ =~= wallet_seed_prefix());

        let first_owner = key_to_bytes(&self.owners[0]);
        let mut owner_seed: Vec<u8> = Vec::new();
        let mut i: usize = 0;
        while i < 32
            invariant
                i <= 32,
                owner_seed@ == first_owner@.subrange(0, i as int),
            decreases 32 - i,
        {
            owner_seed.push(first_owner[i]);
            assert(owner_seed@ =~= first_owner@.subrange(0, i + 1));
            i += 1;
        }
        assert(owner_seed@ =~= first_owner@);

        let mut bump_seed: Vec<u8> = Vec::new();
        bump_seed.push(self.bump);
        assert(bump_seed@ =~= seq![self.bump]);

        let mut seeds: Vec<Vec<u8>> = Vec::new();
        seeds.push(prefix);
        seeds.push(owner_seed);
        seeds.push(bump_seed);
        assert(seeds_view(seeds@) =~= signer_seeds_of(self@));
        seeds
    }
}

} // verus!
