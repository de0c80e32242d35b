//! BLAKE3 as the library uses it: key derivation, and an incremental keyed
//! hash that serves as the message authentication code.
//!
//! The digests come from the `blake3` crate. Nothing is proved of them: they
//! enter the contracts as the values of uninterpreted functions.

use vstd::prelude::*;

verus! {

/// The incremental hash state of the `blake3` crate, opaque to the verifier.
#[verifier::external_type_specification]
#[verifier::external_body]
pub struct ExHasher(blake3::Hasher);

/// The 32 bytes that BLAKE3 in key derivation mode yields for a context
/// string and key material.
pub uninterp spec fn blake3_derive_key(context: Seq<char>, key_material: Seq<u8>) -> Seq<u8>;

/// The 32-byte BLAKE3 keyed hash of `input` under `key`.
pub uninterp spec fn blake3_keyed_hash(key: Seq<u8>, input: Seq<u8>) -> Seq<u8>;

/// The key that a hasher was made with, if it is a hasher of the keyed mode.
pub uninterp spec fn hasher_key(hasher: blake3::Hasher) -> Option<Seq<u8>>;

/// All the bytes that a hasher has been fed so far, in order.
pub uninterp spec fn hasher_input(hasher: blake3::Hasher) -> Seq<u8>;

/// `blake3::derive_key`. The contract names the 32 bytes that come back as a
/// function of the context string and the key material.
#[verifier::external_body]
pub(crate) fn derive_key(context: &str, key_material: &[u8]) -> (out: [u8; 32])
    ensures
        out@ == blake3_derive_key(context@, key_material@),
{
    blake3::derive_key(context, key_material)
}

/// `blake3::Hasher::new_keyed`. The contract claims that the new hasher is
/// of the keyed mode, holds the given key, and has been fed nothing.
#[verifier::external_body]
pub(crate) fn hasher_new_keyed(key: &[u8; 32]) -> (hasher: blake3::Hasher)
    ensures
        hasher_key(hasher) == Some(key@),
        hasher_input(hasher) == Seq::<u8>::empty(),
{
    blake3::Hasher::new_keyed(key)
}

/// `blake3::Hasher::update`. The contract claims that the bytes are appended
/// to what the hasher has been fed, and that its mode and key stay.
#[verifier::external_body]
pub(crate) fn hasher_update(hasher: &mut blake3::Hasher, input: &[u8])
    ensures
        hasher_key(*final(hasher)) == hasher_key(*old(hasher)),
        hasher_input(*final(hasher)) == hasher_input(*old(hasher)) + input@,
{
    hasher.update(input);
}

/// `blake3::Hasher::finalize`, with the digest copied out of the `Hash`. The
/// contract claims that the digest of a keyed hasher is the keyed hash, under
/// its key, of all that it has been fed.
#[verifier::external_body]
pub(crate) fn hasher_finalize(hasher: &blake3::Hasher) -> (digest: [u8; 32])
    requires
        hasher_key(*hasher) is Some,
    ensures
        digest@ == blake3_keyed_hash(hasher_key(*hasher).unwrap(), hasher_input(*hasher)),
{
    *hasher.finalize().as_bytes()
}

/// The `==` of `blake3::Hash` with a byte array, which compares in constant
/// time. The contract claims that it holds exactly when the 32 bytes agree.
#[verifier::external_body]
pub(crate) fn digest_eq(digest: &[u8; 32], tag: &[u8; 32]) -> (equal: bool)
    ensures
        equal == (digest@ == tag@),
{
    blake3::Hash::from_bytes(*digest) == *tag
}

} // verus!
