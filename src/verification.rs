//! Verification of digital signatures.

use crate::error::Error;
use crate::signatures::Signature;
use vstd::prelude::*;

verus! {

/// The length in bytes of an Ed25519 public key.
pub const ED25519_PUBLIC_KEY_LEN: usize = 32;

/// The length in bytes of an Ed25519 signature: a 32-byte point `R` and a
/// 32-byte scalar `S`.
pub const ED25519_SIGNATURE_LEN: usize = 64;

/// The message of every failed verification.
pub open spec fn verification_failed_message() -> Seq<char> {
    "signature verification failed"@
}

/// Whether `r` is a result that `verifier.verify_json` may return on these
/// bytes, as its contract states: success exactly when the scheme accepts
/// them, and otherwise an error whose message does not depend on the inputs.
pub open spec fn is_verification_outcome<V: Verifier + ?Sized>(
    verifier: &V,
    public_key: Seq<u8>,
    signature: Seq<u8>,
    message: Seq<u8>,
    r: Result<(), Error>,
) -> bool {
    &&& r is Ok <==> verifier.accepts(public_key, signature, message)
    &&& r is Err ==> r->Err_0@ == verifier.failure_message()
}

/// A digital signature verifier.
pub trait Verifier {
    /// Whether the scheme accepts `signature` as a signature of `message`
    /// under `public_key`.
    spec fn accepts(&self, public_key: Seq<u8>, signature: Seq<u8>, message: Seq<u8>) -> bool;

    /// The message of the one error that every failure reports.
    spec fn failure_message(&self) -> Seq<char>;

    /// Use a public key to verify a signature against the JSON object that
    /// was signed, given as the exact bytes that were signed.
    ///
    /// Succeeds exactly when the scheme accepts the signature; every failure,
    /// whatever its cause, is the same error.
    fn verify_json(&self, public_key: &[u8], signature: &Signature, message: &[u8]) -> (r: Result<
        (),
        Error,
    >)
        ensures
            r is Ok <==> self.accepts(public_key@, signature@, message@),
            r is Err ==> r->Err_0@ == self.failure_message(),
    ;
}

/// Whether the Ed25519 verification equation of RFC 8032 holds for this
/// public key, message and signature.
pub uninterp spec fn ed25519_equation_holds(
    public_key: Seq<u8>,
    message: Seq<u8>,
    signature: Seq<u8>,
) -> bool;

/// Whether Ed25519 accepts `signature` as a signature of `message` under
/// `public_key`: the key is 32 bytes, the signature 64, and the verification
/// equation holds.
pub open spec fn ed25519_accepts(public_key: Seq<u8>, message: Seq<u8>, signature: Seq<u8>) -> bool {
    &&& public_key.len() == ED25519_PUBLIC_KEY_LEN
    &&& signature.len() == ED25519_SIGNATURE_LEN
    &&& ed25519_equation_holds(public_key, message, signature)
}

#[verifier::external_type_specification]
#[verifier::external_body]
pub struct ExUnspecified(ring::error::Unspecified);

/// Relies on `VerificationAlgorithm::verify` of `ring::signature::ED25519`:
/// it returns `Ok` only for a 32-byte key and a 64-byte signature, and then
/// exactly when the Ed25519 check passes; the outcome depends on the three
/// byte strings alone.
#[verifier::external_body]
fn ring_ed25519_verify(public_key: &[u8], message: &[u8], signature: &[u8]) -> (r: Result<
    (),
    ring::error::Unspecified,
>)
    ensures
        r is Ok <==> (public_key@.len() == ED25519_PUBLIC_KEY_LEN && signature@.len()
            == ED25519_SIGNATURE_LEN && ed25519_equation_holds(public_key@, message@, signature@)),
{
    ring::signature::VerificationAlgorithm::verify(
        &ring::signature::ED25519,
        untrusted::Input::from(public_key),
        untrusted::Input::from(message),
        untrusted::Input::from(signature),
    )
}

/// A verifier for Ed25519 digital signatures.
#[derive(Clone, Copy, Debug, Default, PartialEq, Eq)]
pub struct Ed25519Verifier;

impl Verifier for Ed25519Verifier {
    open spec fn accepts(&self, public_key: Seq<u8>, signature: Seq<u8>, message: Seq<u8>) -> bool {
        ed25519_accepts(public_key, message, signature)
    }

    open spec fn failure_message(&self) -> Seq<char> {
        verification_failed_message()
    }

    fn verify_json(&self, public_key: &[u8], signature: &Signature, message: &[u8]) -> (r: Result<
        (),
        Error,
    >)
        ensures
            public_key@.len() != ED25519_PUBLIC_KEY_LEN ==> r is Err,
            signature@.len() != ED25519_SIGNATURE_LEN ==> r is Err,
    {
        match ring_ed25519_verify(public_key, message, signature.as_bytes()) {
            Ok(()) => Ok(()),
            Err(_) => Err(Error::new("signature verification failed")),
        }
    }
}

/// Verification is a function of its inputs: two calls with the same
/// verifier, public key, signature and message give the same outcome, both
/// successes or both failures with the same message.
pub proof fn lemma_verify_json_deterministic<V: Verifier + ?Sized>(
    verifier: &V,
    public_key: Seq<u8>,
    signature: Seq<u8>,
    message: Seq<u8>,
    first: Result<(), Error>,
    second: Result<(), Error>,
)
    requires
        is_verification_outcome(verifier, public_key, signature, message, first),
        is_verification_outcome(verifier, public_key, signature, message, second),
    ensures
        first is Ok <==> second is Ok,
        first is Err ==> first->Err_0@ == second->Err_0@,
{
}

} // verus!
