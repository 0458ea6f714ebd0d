use anchor_lang::prelude::Pubkey;
use vstd::prelude::*;

verus! {

/// `Pubkey`, the address of an account or a program. Nothing is known of a
/// value but what `key_bytes` says of it.
#[verifier::external_type_specification]
#[verifier::external_body]
pub struct ExPubkey(Pubkey);

/// The bytes that an address consists of, as `Pubkey::to_bytes` returns them.
pub uninterp spec fn key_bytes(key: Pubkey) -> Seq<u8>;

/// Two addresses are the same principal when their bytes agree.
pub open spec fn same_key(a: Pubkey, b: Pubkey) -> bool {
    key_bytes(a) == key_bytes(b)
}

/// `key` occurs in `keys`.
pub open spec fn holds_key(keys: Seq<Pubkey>, key: Pubkey) -> bool {
    exists|i: int| 0 <= i < keys.len() && same_key(#[trigger] keys[i], key)
}

/// No principal occurs twice in `keys`.
pub open spec fn distinct_keys(keys: Seq<Pubkey>) -> bool {
    forall|i: int, j: int|
        0 <= i < j < keys.len() ==> !same_key(#[trigger] keys[i], #[trigger] keys[j])
}

/// `Pubkey` is `Copy`, and its derived `clone` hands back the same address.
pub assume_specification[ <Pubkey as Clone>::clone ](key: &Pubkey) -> (copy: Pubkey)
    ensures
        copy == *key,
;

/// Compares two addresses with `Pubkey`'s `==`, which the type derives over its
/// one field, the byte array: the result is whether the bytes agree.
#[verifier::external_body]
pub(crate) fn keys_equal(a: &Pubkey, b: &Pubkey) -> (equal: bool)
    ensures
        equal == same_key(*a, *b),
{
    a == b
}

/// Reads an address's bytes with `Pubkey::to_bytes`, which returns the byte
/// array that the address holds.
#[verifier::external_body]
pub(crate) fn key_to_bytes(key: &Pubkey) -> (bytes: [u8; 32])
    ensures
        bytes@ == key_bytes(*key),
{
    key.to_bytes()
}

/// Whether `key` is one of `keys`.
pub fn contains_key(keys: &Vec<Pubkey>, key: &Pubkey) -> (found: bool)
    ensures
        found == holds_key(keys@, *key),
{
    let mut i: usize = 0;
    while i < keys.len()
        invariant
            i <= keys.len(),
            forall|k: int| 0 <= k < i ==> !same_key(#[trigger] keys@[k], *key),
        decreases keys.len() - i,
    {
        if keys_equal(&keys[i], key) {
            return true;
        }
        i += 1;
    }
    false
}

/// Appending a key that is not yet held keeps the keys distinct.
pub proof fn lemma_push_keeps_distinct(keys: Seq<Pubkey>, key: Pubkey)
    requires
        distinct_keys(keys),
        !holds_key(keys, key),
    ensures
        distinct_keys(keys.push(key)),
        holds_key(keys.push(key), key),
{
    let grown = keys.push(key);
    assert(same_key(grown[keys.len() as int], key));
    assert forall|i: int, j: int| 0 <= i < j < grown.len() implies !same_key(
        #[trigger] grown[i],
        #[trigger] grown[j],
    ) by {
        if j == keys.len() {
            assert(grown[i] == keys[i]);
        } else {
            assert(grown[i] == keys[i] && grown[j] == keys[j]);
        }
    }
}

} // verus!
