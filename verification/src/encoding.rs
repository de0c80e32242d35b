//! The byte string that the tag authenticates: the associated data, the
//! ciphertext, and a block that holds both lengths.

use vstd::prelude::*;

verus! {

/// The eight bytes of `x`, least significant first.
pub open spec fn le_bytes(x: u64) -> Seq<u8> {
    seq![
        (x & 0xff) as u8,
        ((x >> 8) & 0xff) as u8,
        ((x >> 16) & 0xff) as u8,
        ((x >> 24) & 0xff) as u8,
        ((x >> 32) & 0xff) as u8,
        ((x >> 40) & 0xff) as u8,
        ((x >> 48) & 0xff) as u8,
        ((x >> 56) & 0xff) as u8,
    ]
}

/// The number that eight bytes stand for, least significant first.
pub open spec fn le_value(bytes: Seq<u8>) -> int
    recommends
        bytes.len() == 8,
{
    bytes[0] + 0x100 * bytes[1] + 0x1_0000 * bytes[2] + 0x100_0000 * bytes[3] + 0x1_0000_0000
        * bytes[4] + 0x100_0000_0000 * bytes[5] + 0x1_0000_0000_0000 * bytes[6]
        + 0x100_0000_0000_0000 * bytes[7]
}

/// The length block: the length of the associated data, then the length of
/// the ciphertext, each as eight little-endian bytes.
pub open spec fn length_block_spec(associated_data_len: u64, buffer_len: u64) -> Seq<u8> {
    le_bytes(associated_data_len) + le_bytes(buffer_len)
}

/// Whether a length is too large for its field of the length block.
pub open spec fn exceeds_length_field(len: nat) -> bool {
    len > u64::MAX
}

/// Whether the length of the associated data or of the buffer is too large
/// for the length block.
pub open spec fn length_overflow(associated_data_len: usize, buffer_len: usize) -> bool {
    exceeds_length_field(associated_data_len as nat) || exceeds_length_field(buffer_len as nat)
}

/// Everything the tag is computed over, in order: associated data,
/// ciphertext, length block.
pub open spec fn authenticated_input(associated_data: Seq<u8>, ciphertext: Seq<u8>) -> Seq<u8> {
    associated_data + ciphertext + length_block_spec(
        associated_data.len() as u64,
        ciphertext.len() as u64,
    )
}

/// Builds the length block for the two lengths.
pub fn length_block(associated_data_len: u64, buffer_len: u64) -> (block: [u8; 16])
    ensures
        block@ == length_block_spec(associated_data_len, buffer_len),
{
    let a = associated_data_len;
    let b = buffer_len;
    let block: [u8; 16] = [
        (a & 0xff) as u8,
        ((a >> 8) & 0xff) as u8,
        ((a >> 16) & 0xff) as u8,
        ((a >> 24) & 0xff) as u8,
        ((a >> 32) & 0xff) as u8,
        ((a >> 40) & 0xff) as u8,
        ((a >> 48) & 0xff) as u8,
        ((a >> 56) & 0xff) as u8,
        (b & 0xff) as u8,
        ((b >> 8) & 0xff) as u8,
        ((b >> 16) & 0xff) as u8,
        ((b >> 24) & 0xff) as u8,
        ((b >> 32) & 0xff) as u8,
        ((b >> 40) & 0xff) as u8,
        ((b >> 48) & 0xff) as u8,
        ((b >> 56) & 0xff) as u8,
    ];
    assert(block@ =~= length_block_spec(associated_data_len, buffer_len));
    block
}

/// The eight bytes of a number stand for that number.
pub proof fn lemma_le_bytes_value(x: u64)
    ensures
        le_bytes(x).len() == 8,
        le_value(le_bytes(x)) == x,
{
    assert(x == ((x & 0xff) as u8) + 0x100 * (((x >> 8) & 0xff) as u8) + 0x1_0000 * (((x >> 16)
        & 0xff) as u8) + 0x100_0000 * (((x >> 24) & 0xff) as u8) + 0x1_0000_0000 * (((x >> 32)
        & 0xff) as u8) + 0x100_0000_0000 * (((x >> 40) & 0xff) as u8) + 0x1_0000_0000_0000 * (((x
        >> 48) & 0xff) as u8) + 0x100_0000_0000_0000 * (((x >> 56) & 0xff) as u8))
        by (bit_vector);
}

/// Two numbers with the same eight bytes are the same number.
pub proof fn lemma_le_bytes_injective(x: u64, y: u64)
    requires
        le_bytes(x) == le_bytes(y),
    ensures
        x == y,
{
    lemma_le_bytes_value(x);
    lemma_le_bytes_value(y);
}

/// The authenticated input determines its two parts: no other pair of
/// associated data and ciphertext yields the same bytes, wherever the
/// boundary between the two is moved.
pub proof fn lemma_authenticated_input_injective(
    associated_data_1: Seq<u8>,
    ciphertext_1: Seq<u8>,
    associated_data_2: Seq<u8>,
    ciphertext_2: Seq<u8>,
)
    requires
        !exceeds_length_field(associated_data_1.len()),
        !exceeds_length_field(ciphertext_1.len()),
        !exceeds_length_field(associated_data_2.len()),
        !exceeds_length_field(ciphertext_2.len()),
        authenticated_input(associated_data_1, ciphertext_1) == authenticated_input(
            associated_data_2,
            ciphertext_2,
        ),
    ensures
        associated_data_1 == associated_data_2,
        ciphertext_1 == ciphertext_2,
{
    let m1 = authenticated_input(associated_data_1, ciphertext_1);
    let m2 = authenticated_input(associated_data_2, ciphertext_2);
    let a1 = associated_data_1.len() as u64;
    let a2 = associated_data_2.len() as u64;
    let body_len: int = (associated_data_1.len() + ciphertext_1.len()) as int;
    assert(m1.len() == body_len + 16);
    assert(m2.len() == associated_data_2.len() + ciphertext_2.len() + 16);
    assert(le_bytes(a1) =~= m1.subrange(body_len, body_len + 8));
    assert(le_bytes(a2) =~= m2.subrange(body_len, body_len + 8));
    lemma_le_bytes_injective(a1, a2);
    assert(associated_data_1 =~= m1.subrange(0, a1 as int));
    assert(associated_data_2 =~= m2.subrange(0, a1 as int));
    assert(ciphertext_1 =~= m1.subrange(a1 as int, body_len));
    assert(ciphertext_2 =~= m2.subrange(a1 as int, body_len));
}

} // verus!
