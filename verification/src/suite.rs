//! The cipher suite: which algorithms exist, which combination is pinned, and
//! the byte lengths that each algorithm fixes.

use vstd::prelude::*;

verus! {

/// How the sender authenticates itself to the recipient.
#[derive(Clone, Copy, Debug, PartialEq, Eq, Structural)]
pub enum Mode {
    /// No pre-shared key and no sender authentication.
    Base,
    /// A pre-shared key known to both sides.
    Psk,
    /// The sender's own key pair.
    Auth,
    /// Both of the above.
    AuthPsk,
}

/// Key-encapsulation mechanisms.
#[derive(Clone, Copy, Debug, PartialEq, Eq, Structural)]
pub enum Kem {
    P256HkdfSha256,
    P384HkdfSha384,
    P521HkdfSha512,
    X25519HkdfSha256,
    X448HkdfSha512,
}

/// Key-derivation functions.
#[derive(Clone, Copy, Debug, PartialEq, Eq, Structural)]
pub enum Kdf {
    HkdfSha256,
    HkdfSha384,
    HkdfSha512,
}

/// Authenticated-encryption algorithms.
#[derive(Clone, Copy, Debug, PartialEq, Eq, Structural)]
pub enum Aead {
    Aes128Gcm,
    Aes256Gcm,
    ChaCha20Poly1305,
}

/// One combination of mode and algorithms.
#[derive(Clone, Copy, Debug, PartialEq, Eq, Structural)]
pub struct HpkeConfig {
    pub mode: Mode,
    pub kem: Kem,
    pub kdf: Kdf,
    pub aead: Aead,
}

impl Kem {
    /// Length in bytes of a serialized public key.
    pub open spec fn spec_public_key_len(self) -> nat {
        match self {
            Kem::P256HkdfSha256 => 65,
            Kem::P384HkdfSha384 => 97,
            Kem::P521HkdfSha512 => 133,
            Kem::X25519HkdfSha256 => 32,
            Kem::X448HkdfSha512 => 56,
        }
    }

    /// Length in bytes of an encapsulated key. Every mechanism here sends a
    /// serialized public key, so the two lengths agree.
    pub open spec fn spec_encapsulated_key_len(self) -> nat {
        self.spec_public_key_len()
    }

    /// Number of random bytes that one encapsulation consumes: the length of
    /// a private key.
    pub open spec fn spec_randomness_len(self) -> nat {
        match self {
            Kem::P256HkdfSha256 => 32,
            Kem::P384HkdfSha384 => 48,
            Kem::P521HkdfSha512 => 66,
            Kem::X25519HkdfSha256 => 32,
            Kem::X448HkdfSha512 => 56,
        }
    }

    /// Length in bytes of a serialized public key.
    pub fn public_key_len(&self) -> (n: usize)
        ensures
            n == self.spec_public_key_len(),
    {
        match self {
            Kem::P256HkdfSha256 => 65,
            Kem::P384HkdfSha384 => 97,
            Kem::P521HkdfSha512 => 133,
            Kem::X25519HkdfSha256 => 32,
            Kem::X448HkdfSha512 => 56,
        }
    }

    /// Length in bytes of an encapsulated key.
    pub fn encapsulated_key_len(&self) -> (n: usize)
        ensures
            n == self.spec_encapsulated_key_len(),
    {
        self.public_key_len()
    }

    /// Number of random bytes that one encapsulation consumes.
    pub fn randomness_len(&self) -> (n: usize)
        ensures
            n == self.spec_randomness_len(),
    {
        match self {
            Kem::P256HkdfSha256 => 32,
            Kem::P384HkdfSha384 => 48,
            Kem::P521HkdfSha512 => 66,
            Kem::X25519HkdfSha256 => 32,
            Kem::X448HkdfSha512 => 56,
        }
    }
}

impl Aead {
    /// Length in bytes of the authentication tag that sealing appends.
    pub open spec fn spec_tag_len(self) -> nat {
        16
    }

    /// Length in bytes of the authentication tag that sealing appends.
    pub fn tag_len(&self) -> (n: usize)
        ensures
            n == self.spec_tag_len(),
    {
        16
    }
}

/// The one supported combination.
pub open spec fn default_hpke_config() -> HpkeConfig {
    HpkeConfig {
        mode: Mode::Base,
        kem: Kem::X25519HkdfSha256,
        kdf: Kdf::HkdfSha256,
        aead: Aead::ChaCha20Poly1305,
    }
}

/// Returns the one supported combination. It takes no input and cannot fail.
pub fn get_default_hpke_config() -> (config: HpkeConfig)
    ensures
        config == default_hpke_config(),
{
    HpkeConfig {
        mode: Mode::Base,
        kem: Kem::X25519HkdfSha256,
        kdf: Kdf::HkdfSha256,
        aead: Aead::ChaCha20Poly1305,
    }
}

} // verus!
