//! Verification of digital signatures over serialized JSON messages, with an
//! Ed25519 verifier backed by `ring`.

pub mod error;
pub mod signatures;
pub mod verification;

pub use error::Error;
pub use signatures::Signature;
pub use verification::{Ed25519Verifier, Verifier};
