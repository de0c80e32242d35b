//! The six configurations of the construction: three round counts, each with
//! a 12-byte or a 24-byte nonce.

use vstd::prelude::*;

verus! {

/// Which keystream generator a cipher runs on.
///
/// The `ChaCha*` configurations take a 12-byte nonce. The `XChaCha*`
/// configurations take a 24-byte nonce, from which the generator first derives
/// a subkey of its own.
#[derive(Clone, Copy, Debug, PartialEq, Eq, Structural)]
pub enum Variant {
    ChaCha8,
    ChaCha12,
    ChaCha20,
    XChaCha8,
    XChaCha12,
    XChaCha20,
}

impl Variant {
    /// Number of rounds of the underlying permutation.
    pub open spec fn spec_rounds(self) -> u8 {
        match self {
            Variant::ChaCha8 | Variant::XChaCha8 => 8,
            Variant::ChaCha12 | Variant::XChaCha12 => 12,
            Variant::ChaCha20 | Variant::XChaCha20 => 20,
        }
    }

    /// Whether the configuration takes the extended, 24-byte nonce.
    pub open spec fn spec_is_extended(self) -> bool {
        self == Variant::XChaCha8 || self == Variant::XChaCha12 || self == Variant::XChaCha20
    }

    /// Length in bytes of the nonce that the configuration takes.
    pub open spec fn spec_nonce_len(self) -> usize {
        if self.spec_is_extended() {
            24
        } else {
            12
        }
    }

    /// Number of rounds of the underlying permutation: 8, 12 or 20.
    #[verifier::when_used_as_spec(spec_rounds)]
    pub fn rounds(self) -> (r: u8)
        ensures
            r == self.spec_rounds(),
    {
        match self {
            Variant::ChaCha8 | Variant::XChaCha8 => 8,
            Variant::ChaCha12 | Variant::XChaCha12 => 12,
            Variant::ChaCha20 | Variant::XChaCha20 => 20,
        }
    }

    /// Whether the configuration takes the extended, 24-byte nonce.
    #[verifier::when_used_as_spec(spec_is_extended)]
    pub fn is_extended(self) -> (r: bool)
        ensures
            r == self.spec_is_extended(),
    {
        match self {
            Variant::XChaCha8 | Variant::XChaCha12 | Variant::XChaCha20 => true,
            _ => false,
        }
    }

    /// Length in bytes of the nonce that the configuration takes: 12 or 24.
    #[verifier::when_used_as_spec(spec_nonce_len)]
    pub fn nonce_len(self) -> (r: usize)
        ensures
            r == self.spec_nonce_len(),
    {
        if self.is_extended() {
            24
        } else {
            12
        }
    }
}

} // verus!
