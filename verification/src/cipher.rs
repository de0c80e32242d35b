//! One sealing or opening: a keystream cursor and a keyed hash state that
//! are made for a single message and consumed by it.

use crate::encoding::{authenticated_input, length_block, length_block_spec, length_overflow};
use crate::error::Error;
use crate::keystream::{xor_keystream, Keystream, KEYSTREAM_LEN};
use crate::mac::{
    blake3_derive_key, blake3_keyed_hash, derive_key, digest_eq, hasher_finalize, hasher_input,
    hasher_key, hasher_new_keyed, hasher_update,
};
use crate::secret::zeroize_bytes;
use vstd::prelude::*;

verus! {

/// Context string of the key derivation that yields the base of every MAC key.
pub const BLAKE3_CONTEXT: &'static str = "";

/// Position in the keystream at which the message starts. The 64 bytes
/// before it belong to the MAC key and are never combined with a message.
pub const MESSAGE_OFFSET: u64 = 64;

/// The value that is whitened with the first 32 keystream bytes to give the
/// MAC key: a key derived from the context string alone.
pub open spec fn mac_key_base() -> Seq<u8> {
    blake3_derive_key(BLAKE3_CONTEXT@, Seq::<u8>::empty())
}

/// The state of one sealing or opening.
pub struct Cipher<'a> {
    cipher: Keystream<'a>,
    mac_hasher: blake3::Hasher,
}

/// Decrypts only what is authentic: the keystream is applied to `buffer`
/// only if the tag computed over it equals the tag supplied; otherwise the
/// buffer is left as it was.
pub fn decrypt_if_authentic(
    cipher: Keystream<'_>,
    buffer: &mut [u8],
    computed_tag: &[u8; 32],
    tag: &[u8; 32],
) -> (r: Result<(), Error>)
    requires
        cipher.position() + old(buffer)@.len() <= KEYSTREAM_LEN,
    ensures
        r is Ok <==> computed_tag@ == tag@,
        r is Ok ==> final(buffer)@ == xor_keystream(
            cipher.variant(),
            cipher.key(),
            cipher.nonce(),
            cipher.position(),
            old(buffer)@,
        ),
        r is Err ==> final(buffer)@ == old(buffer)@,
{
    let mut cipher = cipher;
    if digest_eq(computed_tag, tag) {
        cipher.apply_keystream(buffer);
        Ok(())
    } else {
        Err(Error)
    }
}

impl<'a> Cipher<'a> {
    /// Whether the hash state is one of the keyed mode, as every session
    /// that `new` returns is.
    pub closed spec fn well_formed(self) -> bool {
        hasher_key(self.mac_hasher) is Some
    }

    /// The configuration of the keystream.
    pub closed spec fn variant(self) -> crate::variant::Variant {
        self.cipher.variant()
    }

    /// The long-term key of the keystream.
    pub closed spec fn key(self) -> Seq<u8> {
        self.cipher.key()
    }

    /// The nonce of the keystream.
    pub closed spec fn nonce(self) -> Seq<u8> {
        self.cipher.nonce()
    }

    /// Index of the next keystream byte to be used.
    pub closed spec fn position(self) -> nat {
        self.cipher.position()
    }

    /// The key of the message authentication code.
    pub closed spec fn mac_key(self) -> Seq<u8> {
        hasher_key(self.mac_hasher).unwrap()
    }

    /// The bytes that have been authenticated so far.
    pub closed spec fn mac_input(self) -> Seq<u8> {
        hasher_input(self.mac_hasher)
    }

    /// Derives the MAC key from the keystream and seeds the hash state with it.
    ///
    /// The MAC key is the derived base value whitened with the next 32
    /// keystream bytes. The cursor is then moved to `MESSAGE_OFFSET`, and the
    /// buffer that held the MAC key is erased.
    pub fn new(cipher: Keystream<'a>) -> (session: Self)
        requires
            cipher.position() + 32 <= KEYSTREAM_LEN,
        ensures
            session.well_formed(),
            session.variant() == cipher.variant(),
            session.key() == cipher.key(),
            session.nonce() == cipher.nonce(),
            session.position() == MESSAGE_OFFSET,
            session.mac_key() == xor_keystream(
                cipher.variant(),
                cipher.key(),
                cipher.nonce(),
                cipher.position(),
                mac_key_base(),
            ),
            session.mac_input() == Seq::<u8>::empty(),
    {
        let mut cipher = cipher;
        let no_key_material: [u8; 0] = [];
        assert(no_key_material@ =~= Seq::<u8>::empty());
        let mut mac_key = derive_key(BLAKE3_CONTEXT, &no_key_material);
        cipher.apply_keystream(&mut mac_key);
        let mac_hasher = hasher_new_keyed(&mac_key);
        zeroize_bytes(&mut mac_key);
        cipher.seek(MESSAGE_OFFSET);
        Cipher { cipher, mac_hasher }
    }

    /// Authenticates the length block of the two byte strings.
    ///
    /// Fails, with nothing authenticated, if one of the lengths does not fit
    /// its 64-bit field.
    pub fn auth_len(&mut self, associated_data: &[u8], buffer: &[u8]) -> (r: Result<(), Error>)
        requires
            old(self).well_formed(),
        ensures
            final(self).well_formed(),
            r is Err <==> length_overflow(associated_data.len(), buffer.len()),
            r is Ok ==> final(self).mac_input() == old(self).mac_input() + length_block_spec(
                associated_data@.len() as u64,
                buffer@.len() as u64,
            ),
            r is Err ==> final(self).mac_input() == old(self).mac_input(),
            final(self).mac_key() == old(self).mac_key(),
            final(self).variant() == old(self).variant(),
            final(self).key() == old(self).key(),
            final(self).nonce() == old(self).nonce(),
            final(self).position() == old(self).position(),
    {
        let associated_data_len: u64 = match u64::try_from(associated_data.len()) {
            Ok(len) => len,
            Err(_) => {
                return Err(Error);
            },
        };
        let buffer_len: u64 = match u64::try_from(buffer.len()) {
            Ok(len) => len,
            Err(_) => {
                return Err(Error);
            },
        };
        let block = length_block(associated_data_len, buffer_len);
        hasher_update(&mut self.mac_hasher, &block);
        Ok(())
    }

    /// Encrypts `buffer` in place and returns the tag over the associated
    /// data and the ciphertext.
    pub fn encrypt_in_place_detached(self, associated_data: &[u8], buffer: &mut [u8]) -> (r: Result<
        [u8; 32],
        Error,
    >)
        requires
            self.well_formed(),
            self.position() + old(buffer)@.len() <= KEYSTREAM_LEN,
        ensures
            final(buffer)@ == xor_keystream(
                self.variant(),
                self.key(),
                self.nonce(),
                self.position(),
                old(buffer)@,
            ),
            r is Err <==> length_overflow(associated_data.len(), old(buffer).len()),
            r is Ok ==> r.unwrap()@ == blake3_keyed_hash(
                self.mac_key(),
                self.mac_input() + authenticated_input(associated_data@, final(buffer)@),
            ),
    {
        let mut session = self;
        session.cipher.apply_keystream(buffer);
        hasher_update(&mut session.mac_hasher, associated_data);
        hasher_update(&mut session.mac_hasher, buffer);
        match session.auth_len(associated_data, buffer) {
            Ok(()) => {},
            Err(e) => {
                return Err(e);
            },
        }
        assert(session.mac_input() =~= self.mac_input() + authenticated_input(
            associated_data@,
            buffer@,
        ));
        Ok(hasher_finalize(&session.mac_hasher))
    }

    /// Verifies `tag` over the associated data and the ciphertext in
    /// `buffer`, and only then decrypts `buffer` in place.
    ///
    /// On any failure the buffer is left exactly as it was.
    pub fn decrypt_in_place_detached(
        self,
        associated_data: &[u8],
        buffer: &mut [u8],
        tag: &[u8; 32],
    ) -> (r: Result<(), Error>)
        requires
            self.well_formed(),
            self.position() + old(buffer)@.len() <= KEYSTREAM_LEN,
        ensures
            r is Ok <==> !length_overflow(associated_data.len(), old(buffer).len())
                && blake3_keyed_hash(
                self.mac_key(),
                self.mac_input() + authenticated_input(associated_data@, old(buffer)@),
            ) == tag@,
            r is Ok ==> final(buffer)@ == xor_keystream(
                self.variant(),
                self.key(),
                self.nonce(),
                self.position(),
                old(buffer)@,
            ),
            r is Err ==> final(buffer)@ == old(buffer)@,
    {
        let mut session = self;
        hasher_update(&mut session.mac_hasher, associated_data);
        hasher_update(&mut session.mac_hasher, buffer);
        match session.auth_len(associated_data, buffer) {
            Ok(()) => {},
            Err(e) => {
                return Err(e);
            },
        }
        assert(session.mac_input() =~= self.mac_input() + authenticated_input(
            associated_data@,
            buffer@,
        ));
        let computed_tag = hasher_finalize(&session.mac_hasher);
        decrypt_if_authentic(session.cipher, buffer, &computed_tag, tag)
    }
}

} // verus!
