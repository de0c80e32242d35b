//! The single-use session and the keystream cursor, one step at a time.

use chacha_blake3::cipher::decrypt_if_authentic;
use chacha_blake3::{ChaChaBlake3, Cipher, Error, Keystream, Variant};

const ALL_VARIANTS: [Variant; 6] = [
    Variant::ChaCha8,
    Variant::ChaCha12,
    Variant::ChaCha20,
    Variant::XChaCha8,
    Variant::XChaCha12,
    Variant::XChaCha20,
];

fn session_key() -> [u8; 32] {
    let mut key = [0u8; 32];
    for (i, byte) in key.iter_mut().enumerate() {
        *byte = (7 * i + 3) as u8;
    }
    key
}

#[test]
fn variant_parameters() {
    assert_eq!(Variant::ChaCha8.rounds(), 8);
    assert_eq!(Variant::ChaCha12.rounds(), 12);
    assert_eq!(Variant::ChaCha20.rounds(), 20);
    assert_eq!(Variant::XChaCha8.rounds(), 8);
    assert_eq!(Variant::XChaCha12.rounds(), 12);
    assert_eq!(Variant::XChaCha20.rounds(), 20);
    for variant in [Variant::ChaCha8, Variant::ChaCha12, Variant::ChaCha20] {
        assert!(!variant.is_extended());
        assert_eq!(variant.nonce_len(), 12);
    }
    for variant in [Variant::XChaCha8, Variant::XChaCha12, Variant::XChaCha20] {
        assert!(variant.is_extended());
        assert_eq!(variant.nonce_len(), 24);
    }
}

#[test]
fn session_gives_what_the_cipher_gives() {
    for variant in ALL_VARIANTS {
        let key = session_key();
        let nonce = vec![0x5a; variant.nonce_len()];
        let message = b"one message, two ways".to_vec();

        let mut by_session = message.clone();
        let session = Cipher::new(Keystream::new(variant, &key, &nonce));
        let session_tag = session
            .encrypt_in_place_detached(b"ad", &mut by_session)
            .unwrap();

        let mut by_cipher = message.clone();
        let cipher_tag = ChaChaBlake3::new(variant, &key)
            .encrypt_in_place_detached(&nonce, b"ad", &mut by_cipher)
            .unwrap();

        assert_eq!(by_session, by_cipher);
        assert_eq!(session_tag, cipher_tag);
        assert_ne!(by_session, message);
    }
}

#[test]
fn session_opens_what_it_sealed() {
    let key = session_key();
    let nonce = [9u8; 12];
    let message = b"sealed by one session, opened by the next".to_vec();
    let mut buffer = message.clone();
    let tag = Cipher::new(Keystream::new(Variant::ChaCha12, &key, &nonce))
        .encrypt_in_place_detached(b"", &mut buffer)
        .unwrap();
    let opened = Cipher::new(Keystream::new(Variant::ChaCha12, &key, &nonce))
        .decrypt_in_place_detached(b"", &mut buffer, &tag);
    assert_eq!(opened, Ok(()));
    assert_eq!(buffer, message);
}

#[test]
fn message_keystream_starts_at_byte_64() {
    for variant in ALL_VARIANTS {
        let key = session_key();
        let nonce = vec![1u8; variant.nonce_len()];
        let mut sealed = [0u8; 48];
        Cipher::new(Keystream::new(variant, &key, &nonce))
            .encrypt_in_place_detached(b"", &mut sealed)
            .unwrap();

        let mut raw = [0u8; 48];
        let mut stream = Keystream::new(variant, &key, &nonce);
        stream.seek(64);
        stream.apply_keystream(&mut raw);
        assert_eq!(sealed, raw);

        let mut head = [0u8; 48];
        Keystream::new(variant, &key, &nonce).apply_keystream(&mut head);
        assert_ne!(sealed, head);
    }
}

/// The MAC key, put together by hand from the two primitives.
fn mac_key_by_hand(variant: Variant, key: &[u8; 32], nonce: &[u8]) -> [u8; 32] {
    let mut mac_key = blake3::derive_key("", &[]);
    Keystream::new(variant, key, nonce).apply_keystream(&mut mac_key);
    mac_key
}

#[test]
fn tag_is_the_keyed_hash_of_the_authenticated_input() {
    for variant in ALL_VARIANTS {
        let key = session_key();
        let nonce = vec![0x33; variant.nonce_len()];
        let associated_data = b"associated data of 29 bytes..".to_vec();
        let mut buffer: Vec<u8> = (0..150).map(|i| (i * 3) as u8).collect();
        let tag = ChaChaBlake3::new(variant, &key)
            .encrypt_in_place_detached(&nonce, &associated_data, &mut buffer)
            .unwrap();

        let mut input = associated_data.clone();
        input.extend_from_slice(&buffer);
        input.extend_from_slice(&(associated_data.len() as u64).to_le_bytes());
        input.extend_from_slice(&(buffer.len() as u64).to_le_bytes());
        let expected = blake3::keyed_hash(&mac_key_by_hand(variant, &key, &nonce), &input);
        assert_eq!(&tag, expected.as_bytes());
    }
}

#[test]
fn mac_key_is_whitened_with_the_head_of_the_keystream() {
    let key = session_key();
    let nonce = [0x44u8; 12];
    let mac_key = mac_key_by_hand(Variant::ChaCha20, &key, &nonce);
    assert_ne!(mac_key, blake3::derive_key("", &[]));

    let mut buffer = [0u8; 0];
    let tag = Cipher::new(Keystream::new(Variant::ChaCha20, &key, &nonce))
        .encrypt_in_place_detached(b"", &mut buffer)
        .unwrap();
    let expected = blake3::keyed_hash(&mac_key, &[0u8; 16]);
    assert_eq!(&tag, expected.as_bytes());
}

#[test]
fn auth_len_feeds_the_length_block() {
    let key = session_key();
    let nonce = [2u8; 12];
    let mut session = Cipher::new(Keystream::new(Variant::ChaCha20, &key, &nonce));
    assert_eq!(session.auth_len(b"abc", b"defgh"), Ok(()));
    let mut buffer = [0u8; 0];
    let tag = session.encrypt_in_place_detached(b"", &mut buffer).unwrap();

    // The block for lengths 3 and 5, then what sealing two empty strings adds.
    let mut input = Vec::new();
    input.extend_from_slice(&3u64.to_le_bytes());
    input.extend_from_slice(&5u64.to_le_bytes());
    input.extend_from_slice(&[0u8; 16]);
    let expected =
        blake3::keyed_hash(&mac_key_by_hand(Variant::ChaCha20, &key, &nonce), &input);
    assert_eq!(&tag, expected.as_bytes());
}

#[test]
fn equal_tags_release_the_plaintext() {
    let key = session_key();
    let nonce = [3u8; 24];
    let untouched = b"ciphertext stands in here".to_vec();

    let mut expected = untouched.clone();
    Keystream::new(Variant::XChaCha20, &key, &nonce).apply_keystream(&mut expected);

    let mut buffer = untouched.clone();
    let tag = [0xabu8; 32];
    let stream = Keystream::new(Variant::XChaCha20, &key, &nonce);
    assert_eq!(decrypt_if_authentic(stream, &mut buffer, &tag, &tag), Ok(()));
    assert_eq!(buffer, expected);
    assert_ne!(buffer, untouched);
}

#[test]
fn unequal_tags_leave_the_buffer() {
    let key = session_key();
    let nonce = [3u8; 24];
    let untouched = b"ciphertext stands in here".to_vec();
    for bit in 0..256 {
        let computed = [0xabu8; 32];
        let mut supplied = computed;
        supplied[bit / 8] ^= 1 << (bit % 8);
        let mut buffer = untouched.clone();
        let stream = Keystream::new(Variant::XChaCha20, &key, &nonce);
        assert_eq!(
            decrypt_if_authentic(stream, &mut buffer, &computed, &supplied),
            Err(Error)
        );
        assert_eq!(buffer, untouched);
    }
}

#[test]
fn cursor_advances_by_what_it_used() {
    for variant in ALL_VARIANTS {
        let key = session_key();
        let nonce = vec![4u8; variant.nonce_len()];

        let mut whole = [0x11u8; 200];
        Keystream::new(variant, &key, &nonce).apply_keystream(&mut whole);

        let mut parts = [0x11u8; 200];
        let mut stream = Keystream::new(variant, &key, &nonce);
        let (first, rest) = parts.split_at_mut(37);
        let (second, third) = rest.split_at_mut(64);
        stream.apply_keystream(first);
        stream.apply_keystream(second);
        stream.apply_keystream(third);
        assert_eq!(whole, parts);
    }
}

#[test]
fn seek_is_absolute() {
    let key = session_key();
    let nonce = [5u8; 12];
    let mut whole = [0u8; 130];
    Keystream::new(Variant::ChaCha8, &key, &nonce).apply_keystream(&mut whole);

    let mut tail = [0u8; 30];
    let mut stream = Keystream::new(Variant::ChaCha8, &key, &nonce);
    stream.apply_keystream(&mut [0u8; 17]);
    stream.seek(100);
    stream.apply_keystream(&mut tail);
    assert_eq!(&whole[100..], &tail[..]);

    let mut head = [0u8; 10];
    stream.seek(0);
    stream.apply_keystream(&mut head);
    assert_eq!(&whole[..10], &head[..]);
}

#[test]
fn applying_twice_restores() {
    for variant in ALL_VARIANTS {
        let key = session_key();
        let nonce = vec![6u8; variant.nonce_len()];
        let untouched: Vec<u8> = (0..300).map(|i| (i * 5) as u8).collect();
        let mut data = untouched.clone();
        let mut stream = Keystream::new(variant, &key, &nonce);
        stream.seek(64);
        stream.apply_keystream(&mut data);
        assert_ne!(data, untouched);
        stream.seek(64);
        stream.apply_keystream(&mut data);
        assert_eq!(data, untouched);
    }
}

#[test]
fn variants_have_different_keystreams() {
    let key = session_key();
    let mut streams: Vec<[u8; 64]> = Vec::new();
    for variant in ALL_VARIANTS {
        let nonce = vec![0u8; variant.nonce_len()];
        let mut data = [0u8; 64];
        Keystream::new(variant, &key, &nonce).apply_keystream(&mut data);
        streams.push(data);
    }
    for i in 0..streams.len() {
        for j in 0..i {
            assert_ne!(streams[i], streams[j]);
        }
    }
}
