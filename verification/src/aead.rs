//! The cipher that callers hold: a long-term key and a configuration.

use crate::cipher::Cipher;
use crate::encoding::length_overflow;
use crate::error::Error;
use crate::keystream::Keystream;
use crate::model::{accepts, ciphertext_of, plaintext_of, tag_of};
use crate::secret::{erased, zeroize_bytes};
use crate::variant::Variant;
use vstd::prelude::*;

verus! {

/// Largest message, in bytes, that one call can seal or open: what is left
/// of the keystream after the 64 bytes set aside for the MAC key.
pub const MAX_MESSAGE_LEN: u64 = 274_877_906_816;

/// An authenticated cipher under one long-term key.
///
/// Every call derives its own keystream cursor and MAC state from the key
/// and the nonce of that call; nothing but the key is kept between calls.
/// The key is erased when the value is dropped.
pub struct ChaChaBlake3 {
    key: [u8; 32],
    variant: Variant,
}

impl ChaChaBlake3 {
    /// The configuration that the cipher was made with.
    pub closed spec fn spec_variant(&self) -> Variant {
        self.variant
    }

    /// The long-term key.
    pub closed spec fn key(&self) -> Seq<u8> {
        self.key@
    }

    /// A cipher of the given configuration under the given key.
    pub fn new(variant: Variant, key: &[u8; 32]) -> (cipher: Self)
        ensures
            cipher.spec_variant() == variant,
            cipher.key() == key@,
    {
        ChaChaBlake3 { key: *key, variant }
    }

    /// The configuration that the cipher was made with.
    #[verifier::when_used_as_spec(spec_variant)]
    pub fn variant(&self) -> (variant: Variant)
        ensures
            variant == self.spec_variant(),
    {
        self.variant
    }

    /// Encrypts `buffer` in place and returns the tag that authenticates
    /// the ciphertext together with `associated_data`.
    ///
    /// The nonce must never be used twice under the same key.
    pub fn encrypt_in_place_detached(
        &self,
        nonce: &[u8],
        associated_data: &[u8],
        buffer: &mut [u8],
    ) -> (r: Result<[u8; 32], Error>)
        requires
            nonce@.len() == self.spec_variant().spec_nonce_len(),
            old(buffer)@.len() <= MAX_MESSAGE_LEN,
        ensures
            final(buffer)@ == ciphertext_of(self.spec_variant(), self.key(), nonce@, old(buffer)@),
            final(buffer)@.len() == old(buffer)@.len(),
            r is Err <==> length_overflow(associated_data.len(), old(buffer).len()),
            r is Ok ==> r.unwrap()@.len() == 32,
            r is Ok ==> r.unwrap()@ == tag_of(
                self.spec_variant(),
                self.key(),
                nonce@,
                associated_data@,
                final(buffer)@,
            ),
    {
        Cipher::new(Keystream::new(self.variant, &self.key, nonce)).encrypt_in_place_detached(
            associated_data,
            buffer,
        )
    }

    /// Verifies `tag` over `associated_data` and the ciphertext in `buffer`,
    /// and only then decrypts `buffer` in place.
    ///
    /// On failure the buffer holds exactly what it held before the call.
    pub fn decrypt_in_place_detached(
        &self,
        nonce: &[u8],
        associated_data: &[u8],
        buffer: &mut [u8],
        tag: &[u8; 32],
    ) -> (r: Result<(), Error>)
        requires
            nonce@.len() == self.spec_variant().spec_nonce_len(),
            old(buffer)@.len() <= MAX_MESSAGE_LEN,
        ensures
            r is Ok <==> !length_overflow(associated_data.len(), old(buffer).len()) && accepts(
                self.spec_variant(),
                self.key(),
                nonce@,
                associated_data@,
                old(buffer)@,
                tag@,
            ),
            r is Ok ==> final(buffer)@ == plaintext_of(
                self.spec_variant(),
                self.key(),
                nonce@,
                old(buffer)@,
            ),
            r is Err ==> final(buffer)@ == old(buffer)@,
    {
        Cipher::new(Keystream::new(self.variant, &self.key, nonce)).decrypt_in_place_detached(
            associated_data,
            buffer,
            tag,
        )
    }

    /// Overwrites the key with zeros.
    pub fn zeroize(&mut self)
        ensures
            final(self).key() == erased(),
            final(self).spec_variant() == old(self).spec_variant(),
        opens_invariants none
        no_unwind
    {
        zeroize_bytes(&mut self.key);
    }
}

impl Clone for ChaChaBlake3 {
    /// An independent cipher with the same key and configuration.
    fn clone(&self) -> (copy: Self)
        ensures
            copy.key() == self.key(),
            copy.spec_variant() == self.spec_variant(),
    {
        ChaChaBlake3 { key: self.key, variant: self.variant }
    }
}

impl Drop for ChaChaBlake3 {
    /// Erases the key before the memory is released.
    fn drop(&mut self)
        ensures
            final(self).key() == erased(),
        opens_invariants none
        no_unwind
    {
        self.zeroize();
    }
}

} // verus!
