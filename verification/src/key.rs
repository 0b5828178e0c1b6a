//! What every key can do: sign, verify, and give its JSON record.

use crate::algorithm::{AlgorithmBinding, RsaAlgorithm};
use crate::error::Error;
use crate::jwk::{Jwk, JwkView};
use crate::material::{RsaPrivateMaterialView, RsaPublicMaterialView};
use crate::signature::Signature;
use vstd::prelude::*;

verus! {

/// The smallest RSA modulus, in bits, that a key may have.
pub const MIN_RSA_BITS: u32 = 2048;

/// Whether a key of this size may be used.
pub fn size_admitted(bits: u32) -> (r: bool)
    ensures
        r == (bits >= MIN_RSA_BITS),
{
    bits >= MIN_RSA_BITS
}

/// What `private_key_admission` answers.
pub open spec fn private_admission(
    is_rsa: bool,
    bits: nat,
    consistent: Option<bool>,
) -> Result<(), Error> {
    if is_rsa && bits >= MIN_RSA_BITS && consistent == Some(true) {
        Ok(())
    } else {
        Err(Error::UnsupportedOrInvalidKey)
    }
}

/// Decides whether a private key is taken. `consistent` is what the
/// consistency check of the primitive answered, or `None` where it gave no
/// answer. The key must be an RSA key, be large enough, and have passed the
/// check.
pub fn private_key_admission(is_rsa: bool, bits: u32, consistent: Option<bool>) -> (r: Result<
    (),
    Error,
>)
    ensures
        r == private_admission(is_rsa, bits as nat, consistent),
{
    if !is_rsa || !size_admitted(bits) {
        return Err(Error::UnsupportedOrInvalidKey);
    }
    match consistent {
        Some(true) => Ok(()),
        _ => Err(Error::UnsupportedOrInvalidKey),
    }
}

/// What `public_key_admission` answers.
pub open spec fn public_admission(is_rsa: bool, bits: nat) -> Result<(), Error> {
    if is_rsa && bits >= MIN_RSA_BITS {
        Ok(())
    } else {
        Err(Error::UnsupportedOrInvalidKey)
    }
}

/// Decides whether a public key, or a private key that is not checked, is
/// taken: it must be an RSA key and large enough.
pub fn public_key_admission(is_rsa: bool, bits: u32) -> (r: Result<(), Error>)
    ensures
        r == public_admission(is_rsa, bits as nat),
{
    if is_rsa && size_admitted(bits) {
        Ok(())
    } else {
        Err(Error::UnsupportedOrInvalidKey)
    }
}

/// What `verification_outcome` answers.
pub open spec fn verdict(accepted: Option<bool>) -> Result<(), Error> {
    if accepted == Some(true) {
        Ok(())
    } else {
        Err(Error::VerificationFailed)
    }
}

/// Turns the answer of the verification primitive into the result of
/// `verify`. `accepted` is `None` where the primitive failed. A signature
/// that was not accepted and a primitive that failed give the same error:
/// the caller is not told why.
pub fn verification_outcome(accepted: Option<bool>) -> (r: Result<(), Error>)
    ensures
        r == verdict(accepted),
{
    match accepted {
        Some(true) => Ok(()),
        _ => Err(Error::VerificationFailed),
    }
}

/// Whether `result` is a possible result of `verify`, given what the
/// binding of the key makes of the asserted name and whether the primitive
/// accepts the signature under the algorithm that was resolved.
///
/// Where the name does not resolve, the result is the error of the
/// resolution. Where it resolves, the result is `Ok` only if the signature is
/// accepted, and otherwise `VerificationFailed`.
pub open spec fn is_verification_result(
    resolution: Result<RsaAlgorithm, Error>,
    accepted: spec_fn(RsaAlgorithm) -> bool,
    result: Result<(), Error>,
) -> bool {
    match resolution {
        Err(e) => result == Err::<(), Error>(e),
        Ok(algorithm) => result == verdict(Some(accepted(algorithm))) || result == verdict(None),
    }
}

/// A key that is pinned to one algorithm answers the name of any other
/// algorithm with `AlgorithmMismatch`, whatever the message and the signature
/// are: the primitive's answer is not looked at.
pub proof fn lemma_pinned_key_refuses_other_names(
    pinned: RsaAlgorithm,
    other: RsaAlgorithm,
    accepted: spec_fn(RsaAlgorithm) -> bool,
    result: Result<(), Error>,
)
    requires
        other != pinned,
        is_verification_result(
            AlgorithmBinding::Pinned(pinned).resolution(other.name_view()),
            accepted,
            result,
        ),
    ensures
        result == Err::<(), Error>(Error::AlgorithmMismatch),
{
    AlgorithmBinding::lemma_pinned_refuses_others(pinned, other);
}

/// A key answers the name of its own algorithm by asking the primitive under
/// that algorithm, whether it is pinned or verifies any. The result is `Ok`
/// only if the primitive accepts the signature under the key's own
/// algorithm, and the only error is `VerificationFailed`.
pub proof fn lemma_own_name_is_verified(
    algorithm: RsaAlgorithm,
    verify_any: bool,
    accepted: spec_fn(RsaAlgorithm) -> bool,
    result: Result<(), Error>,
)
    requires
        is_verification_result(
            AlgorithmBinding::spec_of_private(algorithm, verify_any).resolution(
                algorithm.name_view(),
            ),
            accepted,
            result,
        ),
    ensures
        result is Ok ==> accepted(algorithm),
        result is Err ==> result == Err::<(), Error>(Error::VerificationFailed),
{
    AlgorithmBinding::lemma_own_name_resolves(algorithm, verify_any);
}

/// A signature that the primitive does not accept under the resolved
/// algorithm, as for a message that was changed, is answered with
/// `VerificationFailed` and nothing else.
pub proof fn lemma_rejected_signature_fails(
    binding: AlgorithmBinding,
    asserted: Seq<char>,
    accepted: spec_fn(RsaAlgorithm) -> bool,
    result: Result<(), Error>,
)
    requires
        binding.resolution(asserted) matches Ok(algorithm) && !accepted(algorithm),
        is_verification_result(binding.resolution(asserted), accepted, result),
    ensures
        result == Err::<(), Error>(Error::VerificationFailed),
{
}

/// A key that signs.
pub trait SigningKey {
    /// The name of the algorithm that the key signs with.
    spec fn alg_view(&self) -> Seq<char>;

    /// Whether `signature` is among the signatures that the key may give for
    /// `message`.
    spec fn may_sign(&self, message: Seq<u8>, signature: Seq<u8>) -> bool;

    /// Signs a message. Fails only where the primitive fails, never because
    /// of what the message holds.
    fn sign(&self, v: &[u8]) -> (r: Result<Signature, Error>)
        ensures
            r matches Ok(signature) ==> self.may_sign(v@, signature@),
            r matches Err(e) ==> e == Error::SigningFailed,
    ;

    /// The name of the algorithm that the key signs with.
    fn alg(&self) -> (r: &'static str)
        ensures
            r@ == self.alg_view(),
    ;
}

/// A key that verifies.
pub trait VerificationKey {
    /// How the key is bound to the algorithms under which it verifies.
    spec fn binding(&self) -> AlgorithmBinding;

    /// Whether the primitive accepts a signature for a message under this
    /// key and the given algorithm.
    spec fn accepts(&self, algorithm: RsaAlgorithm, message: Seq<u8>, signature: Seq<u8>) -> bool;

    /// Verifies a signature of a message under the algorithm whose name is
    /// asserted in `alg`.
    fn verify(&self, v: &[u8], sig: &[u8], alg: &str) -> (r: Result<(), Error>)
        ensures
            is_verification_result(
                self.binding().resolution(alg@),
                |algorithm: RsaAlgorithm| self.accepts(algorithm, v@, sig@),
                r,
            ),
    ;
}

/// A key that can give the JSON record of its public half.
pub trait PublicKeyToJwk {
    /// The record of the public half.
    spec fn public_jwk(&self) -> Result<JwkView, Error>;

    /// What reading the record of the public half gives.
    spec fn public_material(&self) -> RsaPublicMaterialView;

    /// The record of the public half, with each number in the URL-safe
    /// alphabet without padding. Reading it back gives the numbers and the
    /// algorithm of the key. It fails where the primitive cannot give the
    /// numbers of the key, and where a number is too long to write.
    fn public_key_to_jwk(&self) -> (r: Result<Jwk, Error>)
        ensures
            r matches Ok(jwk) ==> {
                &&& self.public_jwk() == Ok::<JwkView, Error>(jwk@)
                &&& jwk@.numbers_are_base64url()
                &&& jwk@.verification_material() == Ok::<RsaPublicMaterialView, Error>(
                    self.public_material(),
                )
            },
            r matches Err(e) ==> e == Error::UnsupportedOrInvalidKey || self.public_jwk() == Err::<
                JwkView,
                Error,
            >(e),
    ;
}

/// A key that can give the JSON record of its private half.
pub trait PrivateKeyToJwk {
    /// The record of the private half.
    spec fn private_jwk(&self) -> Result<JwkView, Error>;

    /// What reading the record of the private half gives, where `fallback`
    /// is the algorithm to sign with if the record names none.
    spec fn private_material(&self, fallback: RsaAlgorithm) -> RsaPrivateMaterialView;

    /// The record of the private half, with every number that the key has,
    /// each in the URL-safe alphabet without padding. Reading it back gives
    /// the numbers and the algorithm of the key. It
    /// fails where the primitive cannot give the numbers of the key, and
    /// where a number is too long to write.
    fn private_key_to_jwk(&self) -> (r: Result<Jwk, Error>)
        ensures
            r matches Ok(jwk) ==> {
                &&& self.private_jwk() == Ok::<JwkView, Error>(jwk@)
                &&& jwk@.numbers_are_base64url()
                &&& forall|fallback: RsaAlgorithm| #[trigger]
                    jwk@.signing_material(fallback) == Ok::<RsaPrivateMaterialView, Error>(
                        self.private_material(fallback),
                    )
            },
            r matches Err(e) ==> e == Error::UnsupportedOrInvalidKey || self.private_jwk() == Err::<
                JwkView,
                Error,
            >(e),
    ;
}

} // verus!
