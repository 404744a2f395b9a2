//! Single-shot hybrid public-key encryption with one pinned cipher suite.
//!
//! A caller hands over a recipient's public key and a plaintext and gets back
//! a self-contained envelope that only the matching private key can open. The
//! suite is fixed (base mode, X25519 with HKDF-SHA256, ChaCha20-Poly1305); the
//! cryptography itself is done by the `hpke` crate and the entropy comes from
//! the operating system through `rand`. Everything around those two calls is
//! verified: which suite is used, what is handed to the pipeline, how the
//! envelope is assembled and how failures are reported.
//!
//! - `suite`: the algorithms, the pinned combination and its byte lengths.
//! - `error`: the kinds of failure and their descriptions.
//! - `entropy`: the draw of fresh randomness.
//! - `pipeline`: the call into `hpke`, and the name of its result.
//! - `seal`: the envelope and the seal operation.
//! - `boundary`: the same operation from bytes to bytes.

pub mod suite;
pub mod error;
pub mod entropy;
pub mod pipeline;
pub mod seal;
pub mod boundary;
