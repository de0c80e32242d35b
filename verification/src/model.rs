//! What sealing and opening compute, as functions of the key, the nonce, the
//! associated data and the message, and what follows from that.

use crate::cipher::{mac_key_base, MESSAGE_OFFSET};
use crate::encoding::{
    authenticated_input, exceeds_length_field, lemma_authenticated_input_injective,
};
use crate::keystream::{keystream_byte, xor_keystream};
use crate::mac::blake3_keyed_hash;
use crate::variant::Variant;
use vstd::prelude::*;

verus! {

/// The MAC key of a key and a nonce: the derived base value whitened with
/// the first 32 bytes of the keystream.
pub open spec fn mac_key(variant: Variant, key: Seq<u8>, nonce: Seq<u8>) -> Seq<u8> {
    xor_keystream(variant, key, nonce, 0, mac_key_base())
}

/// The ciphertext of a plaintext: the plaintext combined with the keystream
/// from `MESSAGE_OFFSET` on.
pub open spec fn ciphertext_of(
    variant: Variant,
    key: Seq<u8>,
    nonce: Seq<u8>,
    plaintext: Seq<u8>,
) -> Seq<u8> {
    xor_keystream(variant, key, nonce, MESSAGE_OFFSET as nat, plaintext)
}

/// The plaintext of a ciphertext: the ciphertext combined with the same
/// stretch of keystream.
pub open spec fn plaintext_of(
    variant: Variant,
    key: Seq<u8>,
    nonce: Seq<u8>,
    ciphertext: Seq<u8>,
) -> Seq<u8> {
    xor_keystream(variant, key, nonce, MESSAGE_OFFSET as nat, ciphertext)
}

/// The tag over associated data and a ciphertext: the keyed hash, under the
/// MAC key, of the authenticated input.
pub open spec fn tag_of(
    variant: Variant,
    key: Seq<u8>,
    nonce: Seq<u8>,
    associated_data: Seq<u8>,
    ciphertext: Seq<u8>,
) -> Seq<u8> {
    blake3_keyed_hash(mac_key(variant, key, nonce), authenticated_input(associated_data, ciphertext))
}

/// Whether opening accepts a ciphertext with its associated data and tag.
pub open spec fn accepts(
    variant: Variant,
    key: Seq<u8>,
    nonce: Seq<u8>,
    associated_data: Seq<u8>,
    ciphertext: Seq<u8>,
    tag: Seq<u8>,
) -> bool {
    tag_of(variant, key, nonce, associated_data, ciphertext) == tag
}

/// Combining a byte string twice with the same stretch of keystream gives
/// the byte string back.
pub proof fn lemma_xor_keystream_involution(
    variant: Variant,
    key: Seq<u8>,
    nonce: Seq<u8>,
    offset: nat,
    data: Seq<u8>,
)
    ensures
        xor_keystream(variant, key, nonce, offset, xor_keystream(variant, key, nonce, offset, data))
            == data,
{
    let once = xor_keystream(variant, key, nonce, offset, data);
    let twice = xor_keystream(variant, key, nonce, offset, once);
    assert forall|i: int| 0 <= i < data.len() implies twice[i] == data[i] by {
        let d = data[i];
        let k = keystream_byte(variant, key, nonce, (offset + i) as nat);
        assert((d ^ k) ^ k == d) by (bit_vector);
    }
    assert(twice =~= data);
}

/// Sealing does not change the length of the message.
pub proof fn lemma_ciphertext_length(
    variant: Variant,
    key: Seq<u8>,
    nonce: Seq<u8>,
    plaintext: Seq<u8>,
)
    ensures
        ciphertext_of(variant, key, nonce, plaintext).len() == plaintext.len(),
{
}

/// Determinism: sealing has no input but the configuration, the key, the
/// nonce, the associated data and the message, so two sealings that agree on
/// these agree on the ciphertext and on the tag.
pub proof fn lemma_seal_deterministic(
    variant_1: Variant,
    key_1: Seq<u8>,
    nonce_1: Seq<u8>,
    associated_data_1: Seq<u8>,
    plaintext_1: Seq<u8>,
    variant_2: Variant,
    key_2: Seq<u8>,
    nonce_2: Seq<u8>,
    associated_data_2: Seq<u8>,
    plaintext_2: Seq<u8>,
)
    requires
        variant_1 == variant_2,
        key_1 == key_2,
        nonce_1 == nonce_2,
        associated_data_1 == associated_data_2,
        plaintext_1 == plaintext_2,
    ensures
        ciphertext_of(variant_1, key_1, nonce_1, plaintext_1) == ciphertext_of(
            variant_2,
            key_2,
            nonce_2,
            plaintext_2,
        ),
        tag_of(
            variant_1,
            key_1,
            nonce_1,
            associated_data_1,
            ciphertext_of(variant_1, key_1, nonce_1, plaintext_1),
        ) == tag_of(
            variant_2,
            key_2,
            nonce_2,
            associated_data_2,
            ciphertext_of(variant_2, key_2, nonce_2, plaintext_2),
        ),
{
}

/// Round trip: what sealing yields for a message, opening accepts under the
/// same key, nonce and associated data, and opening gives the message back.
pub proof fn lemma_open_inverts_seal(
    variant: Variant,
    key: Seq<u8>,
    nonce: Seq<u8>,
    associated_data: Seq<u8>,
    plaintext: Seq<u8>,
)
    ensures
        accepts(
            variant,
            key,
            nonce,
            associated_data,
            ciphertext_of(variant, key, nonce, plaintext),
            tag_of(
                variant,
                key,
                nonce,
                associated_data,
                ciphertext_of(variant, key, nonce, plaintext),
            ),
        ),
        plaintext_of(variant, key, nonce, ciphertext_of(variant, key, nonce, plaintext))
            == plaintext,
{
    lemma_xor_keystream_involution(variant, key, nonce, MESSAGE_OFFSET as nat, plaintext);
}

/// `bytes` with bit `bit` of the byte at `index` inverted.
pub open spec fn flip_bit(bytes: Seq<u8>, index: int, bit: u8) -> Seq<u8>
    recommends
        0 <= index < bytes.len(),
        bit < 8,
{
    bytes.update(index, bytes[index] ^ (1u8 << bit))
}

/// Whether the keyed hash maps two different inputs to one digest under `key`.
pub open spec fn mac_collision(key: Seq<u8>, input_1: Seq<u8>, input_2: Seq<u8>) -> bool {
    input_1 != input_2 && blake3_keyed_hash(key, input_1) == blake3_keyed_hash(key, input_2)
}

/// Inverting one bit of a byte string gives a different byte string of the
/// same length. So what the two lemmas below say of a changed tag, changed
/// associated data and a changed ciphertext holds of every single-bit change.
pub proof fn lemma_flip_bit_differs(bytes: Seq<u8>, index: int, bit: u8)
    requires
        0 <= index < bytes.len(),
        bit < 8,
    ensures
        flip_bit(bytes, index, bit) != bytes,
        flip_bit(bytes, index, bit).len() == bytes.len(),
{
    let byte = bytes[index];
    assert(byte ^ (1u8 << bit) != byte) by (bit_vector)
        requires
            bit < 8,
    ;
    assert(flip_bit(bytes, index, bit)[index] != bytes[index]);
}

/// Tamper detection, for the tag: a tag other than the one that sealing
/// computes is never accepted.
pub proof fn lemma_tampered_tag_rejected(
    variant: Variant,
    key: Seq<u8>,
    nonce: Seq<u8>,
    associated_data: Seq<u8>,
    ciphertext: Seq<u8>,
    tampered_tag: Seq<u8>,
)
    requires
        tampered_tag != tag_of(variant, key, nonce, associated_data, ciphertext),
    ensures
        !accepts(variant, key, nonce, associated_data, ciphertext, tampered_tag),
{
}

/// Tamper detection, for the associated data and the ciphertext: if either
/// is changed, the tag of the unchanged pair is not accepted, unless the
/// keyed hash maps the two authenticated inputs, which differ, to one digest.
pub proof fn lemma_tampered_message_rejected(
    variant: Variant,
    key: Seq<u8>,
    nonce: Seq<u8>,
    associated_data: Seq<u8>,
    ciphertext: Seq<u8>,
    tampered_associated_data: Seq<u8>,
    tampered_ciphertext: Seq<u8>,
)
    requires
        !exceeds_length_field(associated_data.len()),
        !exceeds_length_field(ciphertext.len()),
        !exceeds_length_field(tampered_associated_data.len()),
        !exceeds_length_field(tampered_ciphertext.len()),
        tampered_associated_data != associated_data || tampered_ciphertext != ciphertext,
        !mac_collision(
            mac_key(variant, key, nonce),
            authenticated_input(tampered_associated_data, tampered_ciphertext),
            authenticated_input(associated_data, ciphertext),
        ),
    ensures
        !accepts(
            variant,
            key,
            nonce,
            tampered_associated_data,
            tampered_ciphertext,
            tag_of(variant, key, nonce, associated_data, ciphertext),
        ),
{
    if authenticated_input(tampered_associated_data, tampered_ciphertext) == authenticated_input(
        associated_data,
        ciphertext,
    ) {
        lemma_authenticated_input_injective(
            tampered_associated_data,
            tampered_ciphertext,
            associated_data,
            ciphertext,
        );
    }
}

} // verus!
