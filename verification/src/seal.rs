//! The seal operation: from a recipient's public key and a plaintext to a
//! ciphertext envelope, or to an error and no envelope at all.

use crate::entropy::draw_randomness;
use crate::error::{
    describes, error_kind_of, fails_as, key_length_message, randomness_length_message, ErrorKind,
    SealError,
};
use crate::pipeline::{outcome_view, pipeline_seal, sealed};
use crate::suite::{default_hpke_config, get_default_hpke_config, HpkeConfig};
use hpke::HpkeError;
use vstd::prelude::*;
use vstd::slice::slice_to_vec;

verus! {

/// What a successful seal hands to the caller: the encapsulated key and the
/// ciphertext, always together.
#[derive(Clone, Debug, PartialEq, Eq)]
pub struct CiphertextEnvelope {
    pub encapsulated_key: Vec<u8>,
    pub ciphertext: Vec<u8>,
}

impl View for CiphertextEnvelope {
    type V = (Seq<u8>, Seq<u8>);

    open spec fn view(&self) -> (Seq<u8>, Seq<u8>) {
        (self.encapsulated_key@, self.ciphertext@)
    }
}

/// An envelope as one run of bytes: the encapsulated key, then the
/// ciphertext.
pub open spec fn envelope_bytes(parts: (Seq<u8>, Seq<u8>)) -> Seq<u8> {
    parts.0 + parts.1
}

/// Both parts of an envelope have the lengths that the suite fixes for a
/// plaintext of `plaintext_len` bytes.
pub open spec fn envelope_fits(
    config: HpkeConfig,
    parts: (Seq<u8>, Seq<u8>),
    plaintext_len: nat,
) -> bool {
    &&& parts.0.len() == config.kem.spec_encapsulated_key_len()
    &&& parts.1.len() == plaintext_len + config.aead.spec_tag_len()
}

/// The result of a seal as plain values.
pub open spec fn seal_view(r: Result<CiphertextEnvelope, SealError>) -> Result<
    (Seq<u8>, Seq<u8>),
    SealError,
> {
    match r {
        Ok(envelope) => Ok(envelope@),
        Err(e) => Err(e),
    }
}

/// The key is not as long as a public key of the pinned suite.
pub open spec fn wrong_key_length(public_key: Seq<u8>) -> bool {
    public_key.len() != default_hpke_config().kem.spec_public_key_len()
}

/// The randomness is not as long as the pinned suite consumes.
pub open spec fn wrong_randomness_length(randomness: Seq<u8>) -> bool {
    randomness.len() != default_hpke_config().kem.spec_randomness_len()
}

/// How the result of the pipeline becomes the result of a seal: its two parts
/// become the envelope unchanged, and its failure becomes an error of the
/// kind that `error_kind_of` gives, with the pipeline's own description.
pub open spec fn assembled(
    outcome: Result<(Seq<u8>, Seq<u8>), HpkeError>,
    r: Result<(Seq<u8>, Seq<u8>), SealError>,
) -> bool {
    match outcome {
        Ok(parts) => r == Ok::<(Seq<u8>, Seq<u8>), SealError>(parts),
        Err(failure) => {
            &&& r matches Err(e)
            &&& e.kind == error_kind_of(failure)
            &&& describes(failure, e.message)
        },
    }
}

/// What sealing `plaintext` to `public_key` with the given randomness
/// returns. A key of the wrong length is refused first, then randomness of
/// the wrong length; otherwise the pipeline runs once, for the pinned suite,
/// with empty context info and empty additional data.
pub open spec fn sealed_with(
    public_key: Seq<u8>,
    plaintext: Seq<u8>,
    randomness: Seq<u8>,
    r: Result<(Seq<u8>, Seq<u8>), SealError>,
) -> bool {
    let config = default_hpke_config();
    if wrong_key_length(public_key) {
        r matches Err(e) && e.kind == ErrorKind::KeyFormat && e.message@ == key_length_message()
    } else if wrong_randomness_length(randomness) {
        &&& r matches Err(e)
        &&& e.kind == ErrorKind::Randomness
        &&& e.message@ == randomness_length_message()
    } else {
        let info = Seq::<u8>::empty();
        let aad = Seq::<u8>::empty();
        assembled(sealed(config, public_key, info, aad, plaintext, randomness), r)
    }
}

/// What sealing `plaintext` to `public_key` returns when the randomness is
/// drawn inside the call. A key of the wrong length is refused before
/// anything is drawn; otherwise either the entropy source failed, or the
/// result is that of `sealed_with` for some randomness of the suite's
/// length.
pub open spec fn sealed_fresh(
    public_key: Seq<u8>,
    plaintext: Seq<u8>,
    r: Result<(Seq<u8>, Seq<u8>), SealError>,
) -> bool {
    if wrong_key_length(public_key) {
        r matches Err(e) && e.kind == ErrorKind::KeyFormat && e.message@ == key_length_message()
    } else {
        ||| fails_as(r, ErrorKind::Randomness)
        ||| exists|randomness: Seq<u8>|
            {
                &&& !wrong_randomness_length(randomness)
                &&& #[trigger] sealed_with(public_key, plaintext, randomness, r)
            }
    }
}

/// With the randomness fixed, a seal is a function of its inputs: two
/// results for the same key, plaintext and randomness succeed or fail
/// together, are the same envelope where they succeed, and are errors of the
/// same kind where they fail.
pub proof fn lemma_seal_determined_by_randomness(
    public_key: Seq<u8>,
    plaintext: Seq<u8>,
    randomness: Seq<u8>,
    first: Result<(Seq<u8>, Seq<u8>), SealError>,
    second: Result<(Seq<u8>, Seq<u8>), SealError>,
)
    requires
        sealed_with(public_key, plaintext, randomness, first),
        sealed_with(public_key, plaintext, randomness, second),
    ensures
        first is Ok <==> second is Ok,
        first is Ok ==> first == second,
        first matches Err(a) ==> second matches Err(b) && a.kind == b.kind,
{
}

impl CiphertextEnvelope {
    /// Copies the envelope into one buffer: the encapsulated key, then the
    /// ciphertext.
    pub fn to_bytes(&self) -> (bytes: Vec<u8>)
        ensures
            bytes@ == envelope_bytes(self@),
    {
        let mut bytes = slice_to_vec(self.encapsulated_key.as_slice());
        let mut tail = slice_to_vec(self.ciphertext.as_slice());
        bytes.append(&mut tail);
        bytes
    }
}

/// Turns the result of the pipeline into the result of a seal. Nothing of a
/// failed run reaches the caller but the error.
pub fn assemble_envelope(outcome: Result<(Vec<u8>, Vec<u8>), HpkeError>) -> (r: Result<
    CiphertextEnvelope,
    SealError,
>)
    ensures
        assembled(outcome_view(outcome), seal_view(r)),
{
    match outcome {
        Ok((encapsulated_key, ciphertext)) => Ok(CiphertextEnvelope { encapsulated_key, ciphertext }),
        Err(failure) => Err(SealError::from_pipeline(failure)),
    }
}

/// Seals `plaintext` to `public_key` with randomness that the caller
/// supplies. The same three inputs always give the same result.
pub fn seal_with_randomness(public_key: &[u8], plaintext: &[u8], randomness: &[u8]) -> (r: Result<
    CiphertextEnvelope,
    SealError,
>)
    ensures
        sealed_with(public_key@, plaintext@, randomness@, seal_view(r)),
        fails_as(r, ErrorKind::KeyFormat) <==> wrong_key_length(public_key@),
        fails_as(r, ErrorKind::Randomness) <==> !wrong_key_length(public_key@)
            && wrong_randomness_length(randomness@),
        r matches Ok(envelope) ==> envelope_fits(default_hpke_config(), envelope@, plaintext@.len()),
{
    let config = get_default_hpke_config();
    if public_key.len() != config.kem.public_key_len() {
        return Err(SealError::key_length());
    }
    if randomness.len() != config.kem.randomness_len() {
        return Err(SealError::randomness_length());
    }
    let info: Vec<u8> = Vec::new();
    let aad: Vec<u8> = Vec::new();
    let outcome = pipeline_seal(
        &config,
        public_key,
        info.as_slice(),
        aad.as_slice(),
        plaintext,
        randomness,
    );
    assemble_envelope(outcome)
}

/// Seals `plaintext` to `public_key`, drawing fresh randomness from the
/// operating system: once per call, and only after the key has been
/// accepted.
pub fn seal(public_key: &[u8], plaintext: &[u8]) -> (r: Result<CiphertextEnvelope, SealError>)
    ensures
        sealed_fresh(public_key@, plaintext@, seal_view(r)),
        fails_as(r, ErrorKind::KeyFormat) <==> wrong_key_length(public_key@),
        r matches Ok(envelope) ==> envelope_fits(default_hpke_config(), envelope@, plaintext@.len()),
{
    let config = get_default_hpke_config();
    if public_key.len() != config.kem.public_key_len() {
        return Err(SealError::key_length());
    }
    match draw_randomness(config.kem) {
        Err(e) => Err(e),
        Ok(randomness) => seal_with_randomness(public_key, plaintext, randomness.as_slice()),
    }
}

} // verus!
