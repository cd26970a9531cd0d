//! Reference commitment scheme: binds an opaque external payment reference
//! to a fixed-size digest used as the deterministic storage key for its
//! settlement record.

use vstd::prelude::*;

verus! {

/// The digest that the commitment scheme assigns to a reference. It is a
/// pure function of the reference bytes; its value is fixed by the hash
/// the host chain uses.
pub uninterp spec fn digest_of(reference: Seq<u8>) -> Seq<u8>;

/// Relies on anchor_lang::solana_program::hash::hash (SHA-256): the digest
/// depends on the input bytes alone and is 32 bytes long.
#[verifier::external_body]
fn hash_reference(reference: &Vec<u8>) -> (r: Vec<u8>)
    ensures
        r@ == digest_of(reference@),
        r@.len() == 32,
{
    anchor_lang::solana_program::hash::hash(reference.as_slice())
        .to_bytes()
        .to_vec()
}

/// Commits a reference: returns its 32-byte digest, the deterministic
/// lookup key for the settlement record of that reference.
pub fn commit(reference: &Vec<u8>) -> (r: Vec<u8>)
    ensures
        r@ == digest_of(reference@),
        r@.len() == 32,
{
    hash_reference(reference)
}

/// Checks a caller-supplied digest against the recomputed digest of the
/// supplied reference.
pub fn digest_matches(claimed: &Vec<u8>, reference: &Vec<u8>) -> (r: bool)
    ensures
        r == (claimed@ == digest_of(reference@)),
{
    let recomputed = hash_reference(reference);
    crate::bytes_eq(claimed, &recomputed)
}

} // verus!
