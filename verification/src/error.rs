use vstd::prelude::*;

verus! {

/// Why an operation was refused. Every error is final: nothing is retried and
/// nothing is partly built.
#[derive(Debug, Clone, Copy, PartialEq, Eq, Structural)]
pub enum Error {
    /// The key is too small, of another family, malformed, or failed its
    /// consistency check.
    UnsupportedOrInvalidKey,
    /// The algorithm name is not one of the supported names.
    UnknownAlgorithm,
    /// The key is pinned to one algorithm and another name was asserted.
    AlgorithmMismatch,
    /// The signature was not accepted, for whatever reason.
    VerificationFailed,
    /// The primitive could not produce a signature.
    SigningFailed,
    /// Text that should be UTF-8 or base64url is not.
    EncodingError,
}

impl Error {
    /// A short description, fit for a log line.
    pub fn message(self) -> (r: &'static str)
        ensures
            r@ == self.message_view(),
    {
        match self {
            Error::UnsupportedOrInvalidKey => "unsupported or invalid key",
            Error::UnknownAlgorithm => "unknown algorithm",
            Error::AlgorithmMismatch => "algorithm mismatch",
            Error::VerificationFailed => "verification failed",
            Error::SigningFailed => "signing failed",
            Error::EncodingError => "encoding error",
        }
    }

    pub open spec fn message_view(self) -> Seq<char> {
        match self {
            Error::UnsupportedOrInvalidKey => "unsupported or invalid key"@,
            Error::UnknownAlgorithm => "unknown algorithm"@,
            Error::AlgorithmMismatch => "algorithm mismatch"@,
            Error::VerificationFailed => "verification failed"@,
            Error::SigningFailed => "signing failed"@,
            Error::EncodingError => "encoding error"@,
        }
    }
}

} // verus!
