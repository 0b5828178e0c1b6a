//! Keys of whatever family, as they come out of a JSON record.

use crate::algorithm::{AlgorithmBinding, RsaAlgorithm};
use crate::error::Error;
use crate::jwk::{Jwk, JwkView};
use crate::material::{RsaPrivateMaterialView, RsaPublicMaterialView};
use crate::key::{
    is_verification_result, PrivateKeyToJwk, PublicKeyToJwk, SigningKey, VerificationKey,
};
use crate::numbers::lemma_value_of_bytes;
use crate::rsa::{RsaPrivateKey, RsaPublicKey};
use crate::signature::Signature;
use vstd::prelude::*;

verus! {

/// A private key of one of the supported families.
#[non_exhaustive]
#[derive(Debug)]
pub enum SomePrivateKey {
    Rsa(RsaPrivateKey),
}

/// A public key of one of the supported families.
#[non_exhaustive]
#[derive(Debug)]
pub enum SomePublicKey {
    Rsa(RsaPublicKey),
}

impl SigningKey for SomePrivateKey {
    open spec fn alg_view(&self) -> Seq<char> {
        match self {
            SomePrivateKey::Rsa(key) => key.alg_view(),
        }
    }

    open spec fn may_sign(&self, message: Seq<u8>, signature: Seq<u8>) -> bool {
        match self {
            SomePrivateKey::Rsa(key) => key.may_sign(message, signature),
        }
    }

    fn sign(&self, v: &[u8]) -> (r: Result<Signature, Error>) {
        match self {
            SomePrivateKey::Rsa(key) => key.sign(v),
        }
    }

    fn alg(&self) -> (r: &'static str) {
        match self {
            SomePrivateKey::Rsa(key) => key.alg(),
        }
    }
}

impl VerificationKey for SomePrivateKey {
    open spec fn binding(&self) -> AlgorithmBinding {
        match self {
            SomePrivateKey::Rsa(key) => key.binding(),
        }
    }

    open spec fn accepts(
        &self,
        algorithm: RsaAlgorithm,
        message: Seq<u8>,
        signature: Seq<u8>,
    ) -> bool {
        match self {
            SomePrivateKey::Rsa(key) => key.accepts(algorithm, message, signature),
        }
    }

    fn verify(&self, v: &[u8], sig: &[u8], alg: &str) -> (r: Result<(), Error>) {
        match self {
            SomePrivateKey::Rsa(key) => key.verify(v, sig, alg),
        }
    }
}

impl PrivateKeyToJwk for SomePrivateKey {
    open spec fn private_jwk(&self) -> Result<JwkView, Error> {
        match self {
            SomePrivateKey::Rsa(key) => key.private_jwk(),
        }
    }

    open spec fn private_material(&self, fallback: RsaAlgorithm) -> RsaPrivateMaterialView {
        match self {
            SomePrivateKey::Rsa(key) => key.private_material(fallback),
        }
    }

    fn private_key_to_jwk(&self) -> (r: Result<Jwk, Error>) {
        match self {
            SomePrivateKey::Rsa(key) => key.private_key_to_jwk(),
        }
    }
}

impl PublicKeyToJwk for SomePrivateKey {
    open spec fn public_jwk(&self) -> Result<JwkView, Error> {
        match self {
            SomePrivateKey::Rsa(key) => key.public_jwk(),
        }
    }

    open spec fn public_material(&self) -> RsaPublicMaterialView {
        match self {
            SomePrivateKey::Rsa(key) => key.public_material(),
        }
    }

    fn public_key_to_jwk(&self) -> (r: Result<Jwk, Error>) {
        match self {
            SomePrivateKey::Rsa(key) => key.public_key_to_jwk(),
        }
    }
}

impl VerificationKey for SomePublicKey {
    open spec fn binding(&self) -> AlgorithmBinding {
        match self {
            SomePublicKey::Rsa(key) => key.binding(),
        }
    }

    open spec fn accepts(
        &self,
        algorithm: RsaAlgorithm,
        message: Seq<u8>,
        signature: Seq<u8>,
    ) -> bool {
        match self {
            SomePublicKey::Rsa(key) => key.accepts(algorithm, message, signature),
        }
    }

    fn verify(&self, v: &[u8], sig: &[u8], alg: &str) -> (r: Result<(), Error>) {
        match self {
            SomePublicKey::Rsa(key) => key.verify(v, sig, alg),
        }
    }
}

impl PublicKeyToJwk for SomePublicKey {
    open spec fn public_jwk(&self) -> Result<JwkView, Error> {
        match self {
            SomePublicKey::Rsa(key) => key.public_jwk(),
        }
    }

    open spec fn public_material(&self) -> RsaPublicMaterialView {
        match self {
            SomePublicKey::Rsa(key) => key.public_material(),
        }
    }

    fn public_key_to_jwk(&self) -> (r: Result<Jwk, Error>) {
        match self {
            SomePublicKey::Rsa(key) => key.public_key_to_jwk(),
        }
    }
}

impl Jwk {
    /// Makes the private key that the record describes.
    ///
    /// The record must be of key type `RSA` and hold the modulus and both
    /// exponents. With all five further numbers the key is built from all
    /// eight and must pass the consistency check; if one of the five is
    /// missing, the key is built from the modulus and the exponents alone and
    /// is not checked. The key signs with the algorithm that the record names;
    /// a record that names none gives a key that signs with
    /// `rsa_fallback_algorithm` and verifies under any algorithm.
    pub fn to_signing_key(&self, rsa_fallback_algorithm: RsaAlgorithm) -> (r: Result<
        SomePrivateKey,
        Error,
    >)
        ensures
            match self@.signing_material(rsa_fallback_algorithm) {
                Err(e) => r matches Err(refusal) && refusal == e,
                Ok(material) => match r {
                    Ok(SomePrivateKey::Rsa(key)) => key.made_from(material),
                    Err(e) => e == Error::UnsupportedOrInvalidKey,
                },
            },
    {
        let material = match self.signing_material(rsa_fallback_algorithm) {
            Ok(material) => material,
            Err(e) => { return Err(e); },
        };
        match RsaPrivateKey::from_material(&material) {
            Ok(key) => Ok(SomePrivateKey::Rsa(key)),
            Err(e) => Err(e),
        }
    }

    /// Makes the public key that the record describes: pinned to the
    /// algorithm that the record names, or verifying under any algorithm if
    /// it names none.
    pub fn to_verification_key(&self) -> (r: Result<SomePublicKey, Error>)
        ensures
            match self@.verification_material() {
                Err(e) => r matches Err(refusal) && refusal == e,
                Ok(material) => match r {
                    Ok(SomePublicKey::Rsa(key)) => key.made_from(material),
                    Err(e) => e == Error::UnsupportedOrInvalidKey,
                },
            },
    {
        let material = match self.verification_material() {
            Ok(material) => material,
            Err(e) => { return Err(e); },
        };
        match RsaPublicKey::from_components(
            material.n.as_slice(),
            material.e.as_slice(),
            material.algorithm,
        ) {
            Ok(key) => Ok(SomePublicKey::Rsa(key)),
            Err(e) => Err(e),
        }
    }
}

/// A public key that went into a record and came out again verifies as
/// before: it is bound to the same algorithm, has the same modulus and
/// exponent, and accepts exactly the signatures that it accepted.
///
/// `record` is what `public_key_to_jwk` returned for `key`, and `back` is
/// what `to_verification_key` returned for `record`.
pub proof fn lemma_public_key_round_trip(key: RsaPublicKey, record: JwkView, back: RsaPublicKey)
    requires
        record.verification_material() == Ok::<RsaPublicMaterialView, Error>(
            key.public_material(),
        ),
        back.made_from(record.verification_material()->Ok_0),
    ensures
        back.binding() == key.binding(),
        back.modulus() == key.modulus(),
        back.public_exponent() == key.public_exponent(),
        forall|algorithm: RsaAlgorithm, message: Seq<u8>, signature: Seq<u8>|
            back.accepts(algorithm, message, signature) == key.accepts(
                algorithm,
                message,
                signature,
            ),
{
    lemma_value_of_bytes(key.modulus());
    lemma_value_of_bytes(key.public_exponent());
}

/// The public half of a private key, written to a record and read as a
/// public key, has the modulus and the exponent of the private key, and is
/// pinned to the private key's algorithm unless the private key verifies
/// any.
///
/// `record` is what `public_key_to_jwk` returned for `key`, and `public` is
/// what `to_verification_key` returned for `record`.
pub proof fn lemma_derived_public_key(key: RsaPrivateKey, record: JwkView, public: RsaPublicKey)
    requires
        record.verification_material() == Ok::<RsaPublicMaterialView, Error>(
            key.public_material(),
        ),
        public.made_from(record.verification_material()->Ok_0),
    ensures
        public.binding() == key.binding(),
        public.modulus() == key.modulus(),
        public.public_exponent() == key.public_exponent(),
{
    lemma_value_of_bytes(key.modulus());
    lemma_value_of_bytes(key.public_exponent());
}

/// A public key with the modulus and the exponent of a private key verifies
/// what the private key signed, if the private key is an RSA key whose
/// numbers are consistent and the public key is pinned to the private key's
/// algorithm or to none. The primitive accepts the signature, and `verify`
/// answers `Ok`, or `VerificationFailed` where the primitive itself fails.
///
/// `signature` is what `sign` of `key` returned for `message`, and `result`
/// is what `verify` of `public` returned for the message, the signature and
/// the name that `alg` of `key` gives.
pub proof fn lemma_public_key_verifies_signature(
    key: RsaPrivateKey,
    public: RsaPublicKey,
    message: Seq<u8>,
    signature: Seq<u8>,
    result: Result<(), Error>,
)
    requires
        key.is_rsa(),
        key.is_consistent(),
        key.may_sign(message, signature),
        public.modulus() == key.modulus(),
        public.public_exponent() == key.public_exponent(),
        public.spec_algorithm() is None || public.spec_algorithm() == Some(key.spec_algorithm()),
        is_verification_result(
            public.binding().resolution(key.alg_view()),
            |algorithm: RsaAlgorithm| public.accepts(algorithm, message, signature),
            result,
        ),
    ensures
        public.accepts(key.spec_algorithm(), message, signature),
        result is Ok || result == Err::<(), Error>(Error::VerificationFailed),
{
    AlgorithmBinding::lemma_own_name_resolves(key.spec_algorithm(), false);
}

/// A private key that went into a record and came out again has the same
/// numbers and the same binding. With a fallback equal to its own algorithm
/// it also signs with the same algorithm.
///
/// `record` is what `private_key_to_jwk` returned for `key`, and `back` is
/// what `to_signing_key` returned for `record` and `fallback`.
pub proof fn lemma_private_key_round_trip(
    key: RsaPrivateKey,
    record: JwkView,
    fallback: RsaAlgorithm,
    back: RsaPrivateKey,
)
    requires
        record.signing_material(fallback) == Ok::<RsaPrivateMaterialView, Error>(
            key.private_material(fallback),
        ),
        back.made_from(record.signing_material(fallback)->Ok_0),
    ensures
        back.modulus() == key.modulus(),
        back.public_exponent() == key.public_exponent(),
        back.secrets().d == key.secrets().d,
        key.secrets().written().crt() is Some ==> back.secrets() == key.secrets(),
        back.verify_any() == key.verify_any(),
        !key.verify_any() || fallback == key.algorithm() ==> back.algorithm() == key.algorithm()
            && back.binding() == key.binding(),
{
    lemma_value_of_bytes(key.modulus());
    lemma_value_of_bytes(key.public_exponent());
    lemma_value_of_bytes(key.secrets().d);
    let secrets = key.secrets();
    if secrets.written().crt() is Some {
        lemma_value_of_bytes(secrets.p->0);
        lemma_value_of_bytes(secrets.q->0);
        lemma_value_of_bytes(secrets.dp->0);
        lemma_value_of_bytes(secrets.dq->0);
        lemma_value_of_bytes(secrets.qi->0);
    }
}

} // verus!
