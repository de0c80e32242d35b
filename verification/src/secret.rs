//! Erasure of secret bytes.

use vstd::prelude::*;
use zeroize::Zeroize;

verus! {

/// Thirty-two zero bytes: what an erased key reads as.
pub open spec fn erased() -> Seq<u8> {
    Seq::new(32, |i: int| 0u8)
}

/// `zeroize::Zeroize::zeroize` on a byte array. The contract claims that
/// every byte is zero afterwards; that the writes are not optimised away is
/// the crate's own promise and no part of it.
#[verifier::external_body]
pub(crate) fn zeroize_bytes(bytes: &mut [u8; 32])
    ensures
        final(bytes)@ == erased(),
    opens_invariants none
    no_unwind
{
    bytes.zeroize();
}

} // verus!
