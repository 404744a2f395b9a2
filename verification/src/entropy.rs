//! The randomness source: fresh bytes from the operating system.

use crate::error::{ErrorKind, SealError};
use crate::suite::Kem;
use rand::rngs::OsRng;
use rand::RngCore;
use vstd::prelude::*;

verus! {

/// The error of the `rand` crate. Verus sees nothing inside it; it is only
/// carried from the draw to the text of the error that the caller gets.
#[verifier::external_type_specification]
#[verifier::external_body]
pub struct ExEntropyError(rand::Error);

/// Calls `OsRng::try_fill_bytes` of `rand` on a fresh buffer of `count`
/// bytes. Claimed of it: when the call succeeds the whole buffer was filled,
/// so the result has exactly `count` bytes. Nothing is claimed of the bytes
/// themselves, and two calls are never assumed to agree.
#[verifier::external_body]
fn os_random_bytes(count: usize) -> (r: Result<Vec<u8>, rand::Error>)
    requires
        count <= isize::MAX,
    ensures
        r matches Ok(bytes) ==> bytes@.len() == count,
{
    let mut bytes = vec![0u8; count];
    OsRng.try_fill_bytes(&mut bytes)?;
    Ok(bytes)
}

/// Draws the randomness for one encapsulation under `kem`: as many bytes as
/// the mechanism consumes, all of them fresh from the operating system. A
/// failure of the entropy source is reported, never papered over with
/// weaker bytes.
pub fn draw_randomness(kem: Kem) -> (r: Result<Vec<u8>, SealError>)
    ensures
        r matches Ok(bytes) ==> bytes@.len() == kem.spec_randomness_len(),
        r matches Err(e) ==> e.kind == ErrorKind::Randomness,
{
    match os_random_bytes(kem.randomness_len()) {
        Ok(bytes) => Ok(bytes),
        Err(failure) => Err(SealError { kind: ErrorKind::Randomness, message: failure.to_string() }),
    }
}

} // verus!
