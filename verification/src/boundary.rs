//! The surface for callers that deal in byte buffers only.

use crate::error::{fails_as, ErrorKind, SealError};
use crate::seal::{envelope_bytes, envelope_fits, seal, sealed_fresh, wrong_key_length};
use crate::suite::{default_hpke_config, HpkeConfig};
use vstd::prelude::*;

verus! {

/// The two parts of an envelope that arrived as one run of bytes: the
/// encapsulated key has the length that the suite fixes, the rest is the
/// ciphertext.
pub open spec fn envelope_parts(config: HpkeConfig, bytes: Seq<u8>) -> (Seq<u8>, Seq<u8>) {
    let split = config.kem.spec_encapsulated_key_len() as int;
    (bytes.subrange(0, split), bytes.subrange(split, bytes.len() as int))
}

/// An envelope of the suite's lengths is never empty, is as long as the
/// encapsulated key, the plaintext and the tag together, and falls apart
/// into its two parts again.
pub proof fn lemma_envelope_bytes(config: HpkeConfig, parts: (Seq<u8>, Seq<u8>), plaintext_len: nat)
    requires
        envelope_fits(config, parts, plaintext_len),
    ensures
        envelope_bytes(parts).len() == config.kem.spec_encapsulated_key_len() + plaintext_len
            + config.aead.spec_tag_len(),
        envelope_bytes(parts).len() > 0,
        envelope_parts(config, envelope_bytes(parts)) == parts,
{
    let bytes = envelope_bytes(parts);
    let split = config.kem.spec_encapsulated_key_len() as int;
    assert(bytes.subrange(0, split) =~= parts.0);
    assert(bytes.subrange(split, bytes.len() as int) =~= parts.1);
}

/// What `hpke_seal_bytes` returns: the envelope of a seal as one buffer, or
/// the error of that seal.
pub open spec fn sealed_bytes(
    public_key: Seq<u8>,
    plaintext: Seq<u8>,
    r: Result<Seq<u8>, SealError>,
) -> bool {
    let config = default_hpke_config();
    match r {
        Ok(bytes) => {
            &&& bytes.len() == config.kem.spec_encapsulated_key_len() + plaintext.len()
                + config.aead.spec_tag_len()
            &&& sealed_fresh(
                public_key,
                plaintext,
                Ok::<(Seq<u8>, Seq<u8>), SealError>(envelope_parts(config, bytes)),
            )
        },
        Err(e) => sealed_fresh(public_key, plaintext, Err::<(Seq<u8>, Seq<u8>), SealError>(e)),
    }
}

/// The result of `hpke_seal_bytes` as plain values.
pub open spec fn bytes_view(r: Result<Vec<u8>, SealError>) -> Result<Seq<u8>, SealError> {
    match r {
        Ok(bytes) => Ok(bytes@),
        Err(e) => Err(e),
    }
}

/// Seals `plaintext` to `public_key` and returns the envelope as one buffer
/// of its own: the encapsulated key, then the ciphertext.
pub fn hpke_seal_bytes(public_key: &[u8], plaintext: &[u8]) -> (r: Result<Vec<u8>, SealError>)
    ensures
        sealed_bytes(public_key@, plaintext@, bytes_view(r)),
        fails_as(r, ErrorKind::KeyFormat) <==> wrong_key_length(public_key@),
        r matches Ok(bytes) ==> bytes@.len() == default_hpke_config().kem.spec_encapsulated_key_len()
            + plaintext@.len() + default_hpke_config().aead.spec_tag_len(),
        r matches Ok(bytes) ==> bytes@.len() > 0,
{
    match seal(public_key, plaintext) {
        Ok(envelope) => {
            proof {
                lemma_envelope_bytes(default_hpke_config(), envelope@, plaintext@.len());
            }
            Ok(envelope.to_bytes())
        },
        Err(e) => Err(e),
    }
}

} // verus!
