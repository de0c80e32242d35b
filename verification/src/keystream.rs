//! The ChaCha and XChaCha keystreams, and a cursor over one of them.
//!
//! The keystream bytes themselves come from the `chacha20` crate. Nothing is
//! proved of them: they enter the contracts as the values of two
//! uninterpreted functions.

use crate::variant::Variant;
use chacha20::cipher::{KeyIvInit, StreamCipher, StreamCipherSeek};
use vstd::prelude::*;

verus! {

/// Number of keystream bytes that a generator yields before it refuses to go
/// on: 64 bytes for each of the 2^32 - 1 blocks that its counter can still
/// count from zero.
pub const KEYSTREAM_LEN: u64 = 274_877_906_880;

/// Byte `index` of the ChaCha keystream with the given number of rounds, for
/// a 32-byte key and a 12-byte nonce, counted from the start of block zero.
pub uninterp spec fn chacha_keystream_byte(
    rounds: u8,
    key: Seq<u8>,
    nonce: Seq<u8>,
    index: nat,
) -> u8;

/// Byte `index` of the XChaCha keystream with the given number of rounds, for
/// a 32-byte key and a 24-byte nonce, counted from the start of block zero.
pub uninterp spec fn xchacha_keystream_byte(
    rounds: u8,
    key: Seq<u8>,
    nonce: Seq<u8>,
    index: nat,
) -> u8;

/// Byte `index` of the keystream of a configuration.
pub open spec fn keystream_byte(variant: Variant, key: Seq<u8>, nonce: Seq<u8>, index: nat) -> u8 {
    if variant.spec_is_extended() {
        xchacha_keystream_byte(variant.spec_rounds(), key, nonce, index)
    } else {
        chacha_keystream_byte(variant.spec_rounds(), key, nonce, index)
    }
}

/// `data` combined by XOR, byte by byte, with the keystream from byte
/// `offset` on.
pub open spec fn xor_keystream(
    variant: Variant,
    key: Seq<u8>,
    nonce: Seq<u8>,
    offset: nat,
    data: Seq<u8>,
) -> Seq<u8> {
    Seq::new(data.len(), |i: int| data[i] ^ keystream_byte(variant, key, nonce, (offset + i) as nat))
}

/// `chacha20::ChaCha8`: `KeyIvInit::new`, `StreamCipherSeek::seek` to
/// `offset`, then `StreamCipher::apply_keystream` on `data`. The contract
/// claims that each byte of `data` is combined by XOR with the keystream byte
/// at its absolute position, and that the length stays. The preconditions
/// leave out what makes one of the three calls panic: a nonce of another
/// length, and a range that passes the end of the keystream.
#[verifier::external_body]
fn chacha8_xor(key: &[u8; 32], nonce: &[u8], offset: u64, data: &mut [u8])
    requires
        nonce@.len() == 12,
        offset + old(data)@.len() <= KEYSTREAM_LEN,
    ensures
        final(data)@.len() == old(data)@.len(),
        forall|i: int|
            0 <= i < old(data)@.len() ==> #[trigger] final(data)@[i] == old(data)@[i]
                ^ chacha_keystream_byte(8, key@, nonce@, (offset + i) as nat),
{
    let mut engine = chacha20::ChaCha8::new(key.into(), nonce.into());
    engine.seek(offset);
    engine.apply_keystream(data);
}

/// `chacha20::ChaCha12`: `KeyIvInit::new`, `StreamCipherSeek::seek` to
/// `offset`, then `StreamCipher::apply_keystream` on `data`. The contract and
/// the preconditions are those of `chacha8_xor`, for 12 rounds.
#[verifier::external_body]
fn chacha12_xor(key: &[u8; 32], nonce: &[u8], offset: u64, data: &mut [u8])
    requires
        nonce@.len() == 12,
        offset + old(data)@.len() <= KEYSTREAM_LEN,
    ensures
        final(data)@.len() == old(data)@.len(),
        forall|i: int|
            0 <= i < old(data)@.len() ==> #[trigger] final(data)@[i] == old(data)@[i]
                ^ chacha_keystream_byte(12, key@, nonce@, (offset + i) as nat),
{
    let mut engine = chacha20::ChaCha12::new(key.into(), nonce.into());
    engine.seek(offset);
    engine.apply_keystream(data);
}

/// `chacha20::ChaCha20`: `KeyIvInit::new`, `StreamCipherSeek::seek` to
/// `offset`, then `StreamCipher::apply_keystream` on `data`. The contract and
/// the preconditions are those of `chacha8_xor`, for 20 rounds.
#[verifier::external_body]
fn chacha20_xor(key: &[u8; 32], nonce: &[u8], offset: u64, data: &mut [u8])
    requires
        nonce@.len() == 12,
        offset + old(data)@.len() <= KEYSTREAM_LEN,
    ensures
        final(data)@.len() == old(data)@.len(),
        forall|i: int|
            0 <= i < old(data)@.len() ==> #[trigger] final(data)@[i] == old(data)@[i]
                ^ chacha_keystream_byte(20, key@, nonce@, (offset + i) as nat),
{
    let mut engine = chacha20::ChaCha20::new(key.into(), nonce.into());
    engine.seek(offset);
    engine.apply_keystream(data);
}

/// `chacha20::XChaCha8`: `KeyIvInit::new`, `StreamCipherSeek::seek` to
/// `offset`, then `StreamCipher::apply_keystream` on `data`. The contract
/// claims that each byte of `data` is combined by XOR with the keystream byte
/// at its absolute position, and that the length stays. The preconditions
/// leave out what makes one of the three calls panic: a nonce of another
/// length, and a range that passes the end of the keystream.
#[verifier::external_body]
fn xchacha8_xor(key: &[u8; 32], nonce: &[u8], offset: u64, data: &mut [u8])
    requires
        nonce@.len() == 24,
        offset + old(data)@.len() <= KEYSTREAM_LEN,
    ensures
        final(data)@.len() == old(data)@.len(),
        forall|i: int|
            0 <= i < old(data)@.len() ==> #[trigger] final(data)@[i] == old(data)@[i]
                ^ xchacha_keystream_byte(8, key@, nonce@, (offset + i) as nat),
{
    let mut engine = chacha20::XChaCha8::new(key.into(), nonce.into());
    engine.seek(offset);
    engine.apply_keystream(data);
}

/// `chacha20::XChaCha12`: `KeyIvInit::new`, `StreamCipherSeek::seek` to
/// `offset`, then `StreamCipher::apply_keystream` on `data`. The contract and
/// the preconditions are those of `xchacha8_xor`, for 12 rounds.
#[verifier::external_body]
fn xchacha12_xor(key: &[u8; 32], nonce: &[u8], offset: u64, data: &mut [u8])
    requires
        nonce@.len() == 24,
        offset + old(data)@.len() <= KEYSTREAM_LEN,
    ensures
        final(data)@.len() == old(data)@.len(),
        forall|i: int|
            0 <= i < old(data)@.len() ==> #[trigger] final(data)@[i] == old(data)@[i]
                ^ xchacha_keystream_byte(12, key@, nonce@, (offset + i) as nat),
{
    let mut engine = chacha20::XChaCha12::new(key.into(), nonce.into());
    engine.seek(offset);
    engine.apply_keystream(data);
}

/// `chacha20::XChaCha20`: `KeyIvInit::new`, `StreamCipherSeek::seek` to
/// `offset`, then `StreamCipher::apply_keystream` on `data`. The contract and
/// the preconditions are those of `xchacha8_xor`, for 20 rounds.
#[verifier::external_body]
fn xchacha20_xor(key: &[u8; 32], nonce: &[u8], offset: u64, data: &mut [u8])
    requires
        nonce@.len() == 24,
        offset + old(data)@.len() <= KEYSTREAM_LEN,
    ensures
        final(data)@.len() == old(data)@.len(),
        forall|i: int|
            0 <= i < old(data)@.len() ==> #[trigger] final(data)@[i] == old(data)@[i]
                ^ xchacha_keystream_byte(20, key@, nonce@, (offset + i) as nat),
{
    let mut engine = chacha20::XChaCha20::new(key.into(), nonce.into());
    engine.seek(offset);
    engine.apply_keystream(data);
}

/// A position in the keystream of one configuration, key and nonce.
///
/// The key and the nonce are borrowed, so a cursor adds no copy of the key.
pub struct Keystream<'a> {
    variant: Variant,
    key: &'a [u8; 32],
    nonce: &'a [u8],
    position: u64,
}

impl<'a> Keystream<'a> {
    #[verifier::type_invariant]
    spec fn well_formed(self) -> bool {
        &&& self.nonce@.len() == self.variant.spec_nonce_len()
        &&& self.position <= KEYSTREAM_LEN
    }

    /// The configuration whose keystream this is.
    pub closed spec fn variant(self) -> Variant {
        self.variant
    }

    /// The key of the keystream.
    pub closed spec fn key(self) -> Seq<u8> {
        self.key@
    }

    /// The nonce of the keystream.
    pub closed spec fn nonce(self) -> Seq<u8> {
        self.nonce@
    }

    /// Index of the next keystream byte to be used.
    pub closed spec fn position(self) -> nat {
        self.position as nat
    }

    /// A cursor at the start of the keystream.
    pub fn new(variant: Variant, key: &'a [u8; 32], nonce: &'a [u8]) -> (stream: Self)
        requires
            nonce@.len() == variant.spec_nonce_len(),
        ensures
            stream.variant() == variant,
            stream.key() == key@,
            stream.nonce() == nonce@,
            stream.position() == 0,
    {
        Keystream { variant, key, nonce, position: 0 }
    }

    /// Combines `data` by XOR with the keystream at the cursor, and moves the
    /// cursor past the bytes used.
    pub fn apply_keystream(&mut self, data: &mut [u8])
        requires
            old(self).position() + old(data)@.len() <= KEYSTREAM_LEN,
        ensures
            final(data)@ == xor_keystream(
                old(self).variant(),
                old(self).key(),
                old(self).nonce(),
                old(self).position(),
                old(data)@,
            ),
            final(self).variant() == old(self).variant(),
            final(self).key() == old(self).key(),
            final(self).nonce() == old(self).nonce(),
            final(self).position() == old(self).position() + old(data)@.len(),
    {
        proof {
            use_type_invariant(&*self);
        }
        let len = data.len();
        match self.variant {
            Variant::ChaCha8 => chacha8_xor(self.key, self.nonce, self.position, data),
            Variant::ChaCha12 => chacha12_xor(self.key, self.nonce, self.position, data),
            Variant::ChaCha20 => chacha20_xor(self.key, self.nonce, self.position, data),
            Variant::XChaCha8 => xchacha8_xor(self.key, self.nonce, self.position, data),
            Variant::XChaCha12 => xchacha12_xor(self.key, self.nonce, self.position, data),
            Variant::XChaCha20 => xchacha20_xor(self.key, self.nonce, self.position, data),
        }
        assert(data@ =~= xor_keystream(
            self.variant,
            self.key@,
            self.nonce@,
            self.position as nat,
            old(data)@,
        ));
        self.position = self.position + len as u64;
    }

    /// Moves the cursor to an absolute position in the keystream.
    pub fn seek(&mut self, position: u64)
        requires
            position <= KEYSTREAM_LEN,
        ensures
            final(self).variant() == old(self).variant(),
            final(self).key() == old(self).key(),
            final(self).nonce() == old(self).nonce(),
            final(self).position() == position,
    {
        proof {
            use_type_invariant(&*self);
        }
        self.position = position;
    }
}

} // verus!
