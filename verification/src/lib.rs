//! Authenticated encryption that pairs a ChaCha keystream with a keyed
//! BLAKE3 tag, composed as encrypt-then-MAC.
//!
//! A message is sealed under a 32-byte key and a nonce. The first 32 bytes
//! of the keystream whiten a derived value into a MAC key for this one
//! message; the message itself is combined with the keystream from byte 64
//! on; the tag is the keyed hash of the associated data, the ciphertext and
//! a block that holds both lengths. Opening verifies the tag before it
//! touches the buffer.
//!
//! - [`aead`]: the cipher that callers hold, [`ChaChaBlake3`].
//! - [`cipher`]: the state of one sealing or opening, [`Cipher`].
//! - [`keystream`]: the keystream of a configuration and a cursor over it.
//! - [`mac`]: key derivation and the incremental keyed hash.
//! - [`encoding`]: the length block and the authenticated input.
//! - [`model`]: what sealing and opening compute, and what follows from it.
//! - [`secret`]: erasure of key material.
//! - [`variant`]: the six configurations.

pub mod aead;
pub mod cipher;
pub mod encoding;
pub mod error;
pub mod keystream;
pub mod mac;
pub mod model;
pub mod secret;
pub mod variant;

pub use crate::aead::ChaChaBlake3;
pub use crate::cipher::Cipher;
pub use crate::error::Error;
pub use crate::keystream::Keystream;
pub use crate::variant::Variant;
