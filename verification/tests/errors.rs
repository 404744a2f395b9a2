use hpke::HpkeError;
use hpke_spec::error::{ErrorKind, SealError};

#[test]
fn kind_names() {
    assert_eq!(ErrorKind::KeyFormat.name(), "KeyFormatError");
    assert_eq!(ErrorKind::Randomness.name(), "RandomnessError");
    assert_eq!(ErrorKind::Encapsulation.name(), "EncapsulationError");
    assert_eq!(ErrorKind::Aead.name(), "AEADError");
}

#[test]
fn key_length_error() {
    let e = SealError::key_length();
    assert_eq!(e.kind, ErrorKind::KeyFormat);
    assert_eq!(e.message, "recipient public key has the wrong length");
}

#[test]
fn randomness_length_error() {
    let e = SealError::randomness_length();
    assert_eq!(e.kind, ErrorKind::Randomness);
    assert_eq!(e.message, "randomness has the wrong length");
}

#[test]
fn describe_joins_kind_and_message() {
    assert_eq!(
        SealError::key_length().describe(),
        "KeyFormatError: recipient public key has the wrong length"
    );
    assert_eq!(
        SealError::randomness_length().describe(),
        "RandomnessError: randomness has the wrong length"
    );
    let e = SealError { kind: ErrorKind::Aead, message: String::new() };
    assert_eq!(e.describe(), "AEADError: ");
}

#[test]
fn key_failures_of_the_pipeline_are_key_format_errors() {
    assert_eq!(
        SealError::from_pipeline(HpkeError::IncorrectInputLength(32, 31)).kind,
        ErrorKind::KeyFormat
    );
    assert_eq!(SealError::from_pipeline(HpkeError::ValidationError).kind, ErrorKind::KeyFormat);
}

#[test]
fn key_exchange_failures_of_the_pipeline_are_encapsulation_errors() {
    assert_eq!(SealError::from_pipeline(HpkeError::EncapError).kind, ErrorKind::Encapsulation);
    assert_eq!(SealError::from_pipeline(HpkeError::DecapError).kind, ErrorKind::Encapsulation);
    assert_eq!(
        SealError::from_pipeline(HpkeError::KdfOutputTooLong).kind,
        ErrorKind::Encapsulation
    );
}

#[test]
fn cipher_failures_of_the_pipeline_are_aead_errors() {
    assert_eq!(SealError::from_pipeline(HpkeError::SealError).kind, ErrorKind::Aead);
    assert_eq!(SealError::from_pipeline(HpkeError::OpenError).kind, ErrorKind::Aead);
    assert_eq!(SealError::from_pipeline(HpkeError::MessageLimitReached).kind, ErrorKind::Aead);
}

#[test]
fn pipeline_description_is_kept() {
    assert_eq!(SealError::from_pipeline(HpkeError::EncapError).message, "Encapsulation failed");
    assert_eq!(SealError::from_pipeline(HpkeError::SealError).message, "Failed to seal plaintext");
    assert_eq!(
        SealError::from_pipeline(HpkeError::IncorrectInputLength(32, 31)).message,
        "Incorrect input length. Expected 32 bytes. Got 31."
    );
    assert_eq!(
        SealError::from_pipeline(HpkeError::EncapError).describe(),
        "EncapsulationError: Encapsulation failed"
    );
}
