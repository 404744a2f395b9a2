//! The cryptographic pipeline: key encapsulation, key schedule and
//! authenticated encryption, done in one call by the `hpke` crate.

use crate::suite::{default_hpke_config, HpkeConfig};
use hpke::aead::ChaCha20Poly1305;
use hpke::kdf::HkdfSha256;
use hpke::kem::X25519HkdfSha256;
use hpke::{Deserializable, HpkeError, OpModeS, Serializable};
use rand::rngs::StdRng;
use rand::SeedableRng;
use vstd::prelude::*;

verus! {

/// A name for what `hpke::single_shot_seal` returns for a suite, a
/// recipient's public key, the context info, the additional data, a
/// plaintext and the randomness of the encapsulation: the encapsulated key
/// and the ciphertext, or its failure. The call reads nothing but these six
/// (no clock, no state, no entropy of its own), so the same six always give
/// the same result.
pub uninterp spec fn sealed(
    config: HpkeConfig,
    public_key: Seq<u8>,
    info: Seq<u8>,
    aad: Seq<u8>,
    plaintext: Seq<u8>,
    randomness: Seq<u8>,
) -> Result<(Seq<u8>, Seq<u8>), HpkeError>;

/// The result of the pipeline as plain values.
pub open spec fn outcome_view(outcome: Result<(Vec<u8>, Vec<u8>), HpkeError>) -> Result<
    (Seq<u8>, Seq<u8>),
    HpkeError,
> {
    match outcome {
        Ok((encapsulated_key, ciphertext)) => Ok((encapsulated_key@, ciphertext@)),
        Err(failure) => Err(failure),
    }
}

/// Calls `hpke::single_shot_seal` for the pinned suite in base mode. The
/// public key is parsed by the crate's own `from_bytes`; the randomness seeds
/// the `StdRng` of `rand` that the call takes (ChaCha with 12 rounds in the
/// version this crate is locked to), from which the crate draws the keying
/// material of the ephemeral key, once; the encapsulated key comes back
/// through `to_bytes`.
///
/// Claimed of it, for a key and randomness of the suite's lengths:
/// - the result is `sealed` of the arguments;
/// - on success the encapsulated key is a serialized X25519 public key of 32
///   bytes, and the ciphertext is the plaintext's length plus the tag of 16;
/// - it fails only as the crate documents for this call: with `EncapError`
///   when the key exchange yields the all-zero secret, with `SealError` when
///   the cipher refuses the plaintext.
#[verifier::external_body]
pub(crate) fn pipeline_seal(
    config: &HpkeConfig,
    public_key: &[u8],
    info: &[u8],
    aad: &[u8],
    plaintext: &[u8],
    randomness: &[u8],
) -> (r: Result<(Vec<u8>, Vec<u8>), HpkeError>)
    requires
        *config == default_hpke_config(),
        public_key@.len() == config.kem.spec_public_key_len(),
        randomness@.len() == config.kem.spec_randomness_len(),
    ensures
        outcome_view(r) == sealed(*config, public_key@, info@, aad@, plaintext@, randomness@),
        r matches Ok((encapsulated_key, ciphertext)) ==> {
            &&& encapsulated_key@.len() == config.kem.spec_encapsulated_key_len()
            &&& ciphertext@.len() == plaintext@.len() + config.aead.spec_tag_len()
        },
        r matches Err(failure) ==> failure == HpkeError::EncapError || failure
            == HpkeError::SealError,
{
    let key = <X25519HkdfSha256 as hpke::Kem>::PublicKey::from_bytes(public_key)?;
    let mut seed = [0u8; 32];
    seed.copy_from_slice(randomness);
    let mut rng = StdRng::from_seed(seed);
    let (encapsulated_key, ciphertext) = hpke::single_shot_seal::<
        ChaCha20Poly1305,
        HkdfSha256,
        X25519HkdfSha256,
        StdRng,
    >(&OpModeS::Base, &key, info, plaintext, aad, &mut rng)?;
    Ok((encapsulated_key.to_bytes().to_vec(), ciphertext))
}

} // verus!
