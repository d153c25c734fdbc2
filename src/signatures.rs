//! Signature values.

use vstd::prelude::*;
use vstd::slice::slice_to_vec;

verus! {

/// An immutable signature value: the raw bytes that a signing scheme produced.
///
/// The bytes are kept as given; whether they are well formed for a scheme is
/// decided by that scheme's verifier.
#[derive(Clone, Debug, PartialEq, Eq)]
pub struct Signature {
    bytes: Vec<u8>,
}

impl View for Signature {
    type V = Seq<u8>;

    /// The signature's raw bytes.
    closed spec fn view(&self) -> Seq<u8> {
        self.bytes@
    }
}

impl Signature {
    /// A signature holding a copy of `bytes`.
    pub fn new(bytes: &[u8]) -> (s: Signature)
        ensures
            s@ == bytes@,
    {
        Signature { bytes: slice_to_vec(bytes) }
    }

    /// A read-only view of the signature's raw bytes.
    pub fn as_bytes(&self) -> (r: &[u8])
        ensures
            r@ == self@,
    {
        self.bytes.as_slice()
    }
}

} // verus!
