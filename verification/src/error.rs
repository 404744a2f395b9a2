//! The error domain that callers see, and how the pipeline's own failures
//! are reported in it.

use hpke::HpkeError;
use vstd::prelude::*;
use vstd::string::*;

verus! {

/// The failures of the `hpke` crate. The declaration hides nothing: Verus
/// reads the variants from the crate itself, so `error_kind_of` and
/// `SealError::from_pipeline` are checked against the real enum and nothing
/// about it is assumed.
#[verifier::external_type_specification]
pub struct ExHpkeError(HpkeError);

/// What went wrong, in the terms of this library.
#[derive(Clone, Copy, Debug, PartialEq, Eq, Structural)]
pub enum ErrorKind {
    /// The recipient's public key has the wrong length or encoding.
    KeyFormat,
    /// The entropy source did not supply the bytes that were asked for.
    Randomness,
    /// Key encapsulation failed, for instance on a degenerate public key.
    Encapsulation,
    /// Authenticated encryption failed.
    Aead,
}

impl ErrorKind {
    /// The name under which the kind is reported.
    pub open spec fn spec_name(self) -> Seq<char> {
        match self {
            ErrorKind::KeyFormat => "KeyFormatError"@,
            ErrorKind::Randomness => "RandomnessError"@,
            ErrorKind::Encapsulation => "EncapsulationError"@,
            ErrorKind::Aead => "AEADError"@,
        }
    }

    /// The name under which the kind is reported.
    pub fn name(&self) -> (name: &'static str)
        ensures
            name@ == self.spec_name(),
    {
        match self {
            ErrorKind::KeyFormat => "KeyFormatError",
            ErrorKind::Randomness => "RandomnessError",
            ErrorKind::Encapsulation => "EncapsulationError",
            ErrorKind::Aead => "AEADError",
        }
    }
}

/// A failed seal: the kind, and a description meant for people. Callers
/// decide by `Ok` or `Err` alone and never by the text.
#[derive(Clone, Debug, PartialEq, Eq)]
pub struct SealError {
    pub kind: ErrorKind,
    pub message: String,
}

/// `r` is an error of the given kind.
pub open spec fn fails_as<T>(r: Result<T, SealError>, kind: ErrorKind) -> bool {
    r matches Err(e) && e.kind == kind
}

/// The kind under which a failure of the pipeline is reported.
pub open spec fn error_kind_of(failure: HpkeError) -> ErrorKind {
    match failure {
        HpkeError::IncorrectInputLength(_, _) | HpkeError::ValidationError => ErrorKind::KeyFormat,
        HpkeError::EncapError | HpkeError::DecapError | HpkeError::KdfOutputTooLong =>
            ErrorKind::Encapsulation,
        HpkeError::SealError | HpkeError::OpenError | HpkeError::MessageLimitReached =>
            ErrorKind::Aead,
    }
}

/// `message` is the text by which the pipeline describes `failure`.
pub open spec fn describes(failure: HpkeError, message: String) -> bool {
    to_string_from_display_ensures::<HpkeError>(&failure, message)
}

/// Text of the error for a public key of the wrong length.
pub open spec fn key_length_message() -> Seq<char> {
    "recipient public key has the wrong length"@
}

/// Text of the error for randomness of the wrong length.
pub open spec fn randomness_length_message() -> Seq<char> {
    "randomness has the wrong length"@
}

impl SealError {
    /// The one line that carries the error across a boundary: the name of the
    /// kind, a colon and a space, then the message.
    pub open spec fn spec_describe(self) -> Seq<char> {
        self.kind.spec_name() + ": "@ + self.message@
    }

    /// The one line that carries the error across a boundary.
    pub fn describe(&self) -> (text: String)
        ensures
            text@ == self.spec_describe(),
    {
        let mut text = self.kind.name().to_owned();
        text.append(": ");
        text.append(self.message.as_str());
        text
    }

    /// The error for a public key of the wrong length.
    pub fn key_length() -> (e: SealError)
        ensures
            e.kind == ErrorKind::KeyFormat,
            e.message@ == key_length_message(),
    {
        SealError {
            kind: ErrorKind::KeyFormat,
            message: "recipient public key has the wrong length".to_owned(),
        }
    }

    /// The error for randomness of the wrong length.
    pub fn randomness_length() -> (e: SealError)
        ensures
            e.kind == ErrorKind::Randomness,
            e.message@ == randomness_length_message(),
    {
        SealError {
            kind: ErrorKind::Randomness,
            message: "randomness has the wrong length".to_owned(),
        }
    }

    /// Reports a failure of the pipeline: the kind by `error_kind_of`, the
    /// message as the pipeline words it.
    pub fn from_pipeline(failure: HpkeError) -> (e: SealError)
        ensures
            e.kind == error_kind_of(failure),
            describes(failure, e.message),
    {
        let kind = match failure {
            HpkeError::IncorrectInputLength(_, _) => ErrorKind::KeyFormat,
            HpkeError::ValidationError => ErrorKind::KeyFormat,
            HpkeError::EncapError => ErrorKind::Encapsulation,
            HpkeError::DecapError => ErrorKind::Encapsulation,
            HpkeError::KdfOutputTooLong => ErrorKind::Encapsulation,
            HpkeError::SealError => ErrorKind::Aead,
            HpkeError::OpenError => ErrorKind::Aead,
            HpkeError::MessageLimitReached => ErrorKind::Aead,
        };
        SealError { kind, message: failure.to_string() }
    }
}

} // verus!
