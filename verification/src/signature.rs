//! The buffer in which a signature is handed out.

use smallvec::SmallVec;
use vstd::prelude::*;

verus! {

/// A signature: a sequence of bytes in a `smallvec::SmallVec`, which keeps up
/// to 64 of them without a heap allocation.
#[verifier::external_body]
#[derive(Debug)]
pub struct Signature {
    bytes: SmallVec<[u8; 64]>,
}

/// The bytes that a signature holds, in order.
pub uninterp spec fn signature_bytes(signature: Signature) -> Seq<u8>;

impl View for Signature {
    type V = Seq<u8>;

    open spec fn view(&self) -> Seq<u8> {
        signature_bytes(*self)
    }
}

impl Signature {
    /// `SmallVec::from_vec`: the same bytes in the same order.
    #[verifier::external_body]
    pub(crate) fn from_vec(bytes: Vec<u8>) -> (r: Signature)
        ensures
            signature_bytes(r) == bytes@,
    {
        Signature { bytes: SmallVec::from_vec(bytes) }
    }

    /// `SmallVec::as_slice`: the bytes of the buffer, in order.
    #[verifier::external_body]
    fn slice(&self) -> (r: &[u8])
        ensures
            r@ == signature_bytes(*self),
    {
        self.bytes.as_slice()
    }

    /// The bytes of the signature.
    pub fn as_slice(&self) -> (r: &[u8])
        ensures
            r@ == self@,
    {
        self.slice()
    }
}

impl core::ops::Deref for Signature {
    type Target = [u8];

    fn deref(&self) -> (r: &[u8])
        ensures
            r@ == self@,
    {
        self.as_slice()
    }
}

} // verus!
