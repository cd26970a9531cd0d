//! A verified settlement ledger bridging an off-chain payment rail with an
//! on-chain stable-value token.
//!
//! The library models the ledger as a state machine over plain values:
//! participant accounts, a singleton treasury configuration, and
//! idempotency records keyed by the digest of an external payment
//! reference. Every operation is a verified transition; the host runtime
//! performs the actual token transfers that an operation requests and
//! commits the new state only if that transfer succeeds.

pub mod accounts;
pub mod commitment;
pub mod context;
pub mod errors;
pub mod events;
pub mod laws;
pub mod ledger;
pub mod state;

use vstd::prelude::*;

verus! {

/// Maximum byte length of an external payment reference.
pub const MAX_REF_BYTES: usize = 64;

/// Maximum byte length of a participant's country code.
pub const MAX_COUNTRY_BYTES: usize = 32;

/// Byte-for-byte equality of two byte vectors.
pub fn bytes_eq(a: &Vec<u8>, b: &Vec<u8>) -> (r: bool)
    ensures
        r == (a@ == b@),
{
    if a.len() != b.len() {
        return false;
    }
    let mut i: usize = 0;
    while i < a.len()
        invariant
            0 <= i <= a.len(),
            a@.len() == b@.len(),
            forall|j: int| 0 <= j < i ==> a@[j] == b@[j],
        decreases a.len() - i,
    {
        if a[i] != b[i] {
            return false;
        }
        i += 1;
    }
    proof {
        assert(a@ =~= b@);
    }
    true
}

/// Copies a byte vector; the copy views equal to the original.
pub fn clone_bytes(v: &Vec<u8>) -> (r: Vec<u8>)
    ensures
        r@ == v@,
{
    let r = v.clone();
    proof {
        assert forall|i: int| 0 <= i < v@.len() implies r@[i] == v@[i] by {
            assert(vstd::pervasive::cloned::<u8>(v@[i], r@[i]));
        }
        assert(r@ =~= v@);
    }
    r
}

} // verus!
