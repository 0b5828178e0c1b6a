//! RSA keys: RSASSA-PKCS1-v1_5 and RSASSA-PSS with SHA-256, SHA-384 and
//! SHA-512.

use crate::algorithm::{AlgorithmBinding, RsaAlgorithm};
use crate::error::Error;
use crate::jwk::{Jwk, JwkView};
use crate::key::{
    is_verification_result, private_key_admission, public_key_admission, size_admitted,
    verification_outcome, PrivateKeyToJwk, PublicKeyToJwk, SigningKey, VerificationKey,
    MIN_RSA_BITS,
};
use crate::material::{
    RsaPrivateMaterial, RsaPrivateMaterialView, RsaPublicMaterialView, RsaSecretNumbers,
};
use crate::numbers::{be_bytes, be_value, bit_length, is_minimal, lemma_bytes_minimal};
use crate::primitives::{
    check_private_key, clone_private_key, generate_private_key, pem_private_key,
    pkcs1_signature, private_bits, private_exponent, private_is_rsa, private_key_bits,
    private_key_consistent, private_key_exponent, private_key_from_exponents,
    private_key_from_numbers, private_key_from_pem, private_key_is_rsa, private_key_modulus,
    private_key_pkcs1_pem, private_key_pkcs8_pem, private_key_secrets, private_key_spki_pem,
    private_modulus, private_pkcs1_pem, private_pkcs8_pem, private_public_eq, private_secrets,
    private_spki_pem, private_verify_pkcs1, private_verify_pss, public_bits, public_exponent,
    public_is_rsa, public_key_bits, public_key_exponent, public_key_from_numbers,
    public_key_from_pem, public_key_from_pkcs1_pem, public_key_is_rsa, public_key_modulus,
    public_key_pkcs1_pem, public_key_spki_pem, public_modulus, public_pkcs1_pem, public_spki_pem,
    public_verify_pkcs1, public_verify_pss, read_public_pem, reads_as_public_half, rsa_accepts,
    same_public_key,
    sign_pkcs1, sign_pss, MAX_INPUT_LEN,
};
use crate::signature::Signature;
use crate::text::{is_pem_export, pem_text, sniff_pkcs1};
use openssl::pkey::{PKey, Private, Public};
use vstd::prelude::*;

verus! {

/// What a failed primitive leaves of its result: nothing.
fn made<T>(r: Result<T, openssl::error::ErrorStack>) -> (o: Option<T>)
    ensures
        o == match r {
            Ok(value) => Some(value),
            Err(_) => None,
        },
{
    match r {
        Ok(value) => Some(value),
        Err(_) => None,
    }
}

/// RSA private key.
///
/// A private key signs with the one algorithm it was made for. It verifies
/// under that algorithm only, unless it is told to verify under any RSA
/// algorithm. It is an RSA key, and its modulus has at least 2048 bits.
#[derive(Debug)]
pub struct RsaPrivateKey {
    private_key: PKey<Private>,
    algorithm: RsaAlgorithm,
    verify_any: bool,
}

impl RsaPrivateKey {
    #[verifier::type_invariant]
    spec fn rsa_and_large_enough(self) -> bool {
        private_key_is_rsa(self.private_key) && private_key_bits(self.private_key) >= MIN_RSA_BITS
    }

    /// The handle of the key.
    pub closed spec fn handle(self) -> PKey<Private> {
        self.private_key
    }

    /// The algorithm that the key signs with.
    pub closed spec fn spec_algorithm(&self) -> RsaAlgorithm {
        self.algorithm
    }

    /// Whether the key verifies under any RSA algorithm.
    pub closed spec fn spec_verify_any(&self) -> bool {
        self.verify_any
    }

    /// Whether the key is of the RSA kind.
    pub open spec fn is_rsa(self) -> bool {
        private_key_is_rsa(self.handle())
    }

    /// The size of the key in bits.
    pub open spec fn bits(self) -> nat {
        private_key_bits(self.handle())
    }

    /// Whether the numbers of the key pass the consistency check.
    pub open spec fn is_consistent(self) -> bool {
        private_key_consistent(self.handle())
    }

    /// The modulus.
    pub open spec fn modulus(self) -> nat {
        private_key_modulus(self.handle())
    }

    /// The public exponent.
    pub open spec fn public_exponent(self) -> nat {
        private_key_exponent(self.handle())
    }

    /// The private exponent and the five further numbers.
    pub open spec fn secrets(self) -> RsaSecretNumbers {
        private_key_secrets(self.handle())
    }

    /// The key as a PKCS#8 PEM block.
    pub open spec fn pkcs8_pem(self) -> Seq<u8> {
        private_key_pkcs8_pem(self.handle())
    }

    /// The public half as a SubjectPublicKeyInfo PEM block.
    pub open spec fn spki_pem(self) -> Seq<u8> {
        private_key_spki_pem(self.handle())
    }

    /// The public half as a PKCS#1 PEM block.
    pub open spec fn pkcs1_pem(self) -> Seq<u8> {
        private_key_pkcs1_pem(self.handle())
    }

    /// Whether the key is one that the material read out of a record gives:
    /// it has the algorithm and the numbers of the material, the five further
    /// numbers if the material has them, and in that case it has passed the
    /// consistency check.
    pub open spec fn made_from(self, material: RsaPrivateMaterialView) -> bool {
        &&& self.is_rsa()
        &&& self.bits() >= MIN_RSA_BITS
        &&& bit_length(self.modulus()) >= MIN_RSA_BITS
        &&& self.spec_algorithm() == material.algorithm
        &&& self.spec_verify_any() == material.verify_any
        &&& self.modulus() == be_value(material.n)
        &&& self.public_exponent() == be_value(material.e)
        &&& self.secrets().d == be_value(material.d)
        &&& match material.crt {
            Some(crt) => {
                &&& self.is_consistent()
                &&& self.secrets().p == Some(be_value(crt.p))
                &&& self.secrets().q == Some(be_value(crt.q))
                &&& self.secrets().dp == Some(be_value(crt.dp))
                &&& self.secrets().dq == Some(be_value(crt.dq))
                &&& self.secrets().qi == Some(be_value(crt.qi))
            },
            None => {
                &&& self.secrets().p is None
                &&& self.secrets().q is None
                &&& self.secrets().dp is None
                &&& self.secrets().dq is None
                &&& self.secrets().qi is None
            },
        }
    }

    /// The algorithm that the key signs with.
    #[verifier::when_used_as_spec(spec_algorithm)]
    pub fn algorithm(&self) -> (r: RsaAlgorithm)
        ensures
            r == self.spec_algorithm(),
    {
        self.algorithm
    }

    /// Whether the key verifies under any RSA algorithm rather than under its
    /// own only.
    #[verifier::when_used_as_spec(spec_verify_any)]
    pub fn verify_any(&self) -> (r: bool)
        ensures
            r == self.spec_verify_any(),
    {
        self.verify_any
    }

    /// Tells the key whether to verify under any RSA algorithm. The key and
    /// the algorithm it signs with stay as they are.
    pub fn set_verify_any(&mut self, verify_any: bool)
        ensures
            final(self).verify_any() == verify_any,
            final(self).algorithm() == old(self).algorithm(),
            final(self).handle() == old(self).handle(),
    {
        proof {
            use_type_invariant(&*self);
        }
        self.verify_any = verify_any;
    }

    /// Makes a new key of the given size. bits >= 2048.
    pub fn generate(bits: u32, algorithm: RsaAlgorithm) -> (r: Result<RsaPrivateKey, Error>)
        ensures
            bits < MIN_RSA_BITS ==> r is Err,
            r matches Err(e) ==> e == Error::UnsupportedOrInvalidKey,
            r matches Ok(key) ==> {
                &&& key.is_rsa()
                &&& key.bits() == bits
                &&& key.is_consistent()
                &&& key.algorithm() == algorithm
                &&& !key.verify_any()
            },
    {
        if !size_admitted(bits) {
            return Err(Error::UnsupportedOrInvalidKey);
        }
        match generate_private_key(bits) {
            Ok(private_key) => Ok(RsaPrivateKey { private_key, algorithm, verify_any: false }),
            Err(_) => Err(Error::UnsupportedOrInvalidKey),
        }
    }

    /// Takes a key that the primitive handed out, if it is an RSA key, is
    /// large enough and passes the consistency check.
    pub(crate) fn from_pkey(pkey: PKey<Private>, algorithm: RsaAlgorithm) -> (r: Result<
        RsaPrivateKey,
        Error,
    >)
        ensures
            r is Ok <==> private_key_is_rsa(pkey) && private_key_bits(pkey) >= MIN_RSA_BITS
                && private_key_consistent(pkey),
            r matches Err(e) ==> e == Error::UnsupportedOrInvalidKey,
            r matches Ok(key) ==> {
                &&& key.handle() == pkey
                &&& bit_length(key.modulus()) >= MIN_RSA_BITS
                &&& key.algorithm() == algorithm
                &&& !key.verify_any()
            },
    {
        let is_rsa = private_is_rsa(&pkey);
        let bits = private_bits(&pkey);
        if !is_rsa || !size_admitted(bits) {
            return Err(Error::UnsupportedOrInvalidKey);
        }
        let consistent = made(check_private_key(&pkey));
        match private_key_admission(is_rsa, bits, consistent) {
            Ok(()) => Ok(RsaPrivateKey { private_key: pkey, algorithm, verify_any: false }),
            Err(e) => Err(e),
        }
    }

    /// Takes a key that the primitive handed out, if it is an RSA key and
    /// large enough. The consistency check is not made.
    pub(crate) fn from_pkey_without_check(pkey: PKey<Private>, algorithm: RsaAlgorithm) -> (r:
        Result<RsaPrivateKey, Error>)
        ensures
            r is Ok <==> private_key_is_rsa(pkey) && private_key_bits(pkey) >= MIN_RSA_BITS,
            r matches Err(e) ==> e == Error::UnsupportedOrInvalidKey,
            r matches Ok(key) ==> {
                &&& key.handle() == pkey
                &&& bit_length(key.modulus()) >= MIN_RSA_BITS
                &&& key.algorithm() == algorithm
                &&& !key.verify_any()
            },
    {
        match public_key_admission(private_is_rsa(&pkey), private_bits(&pkey)) {
            Ok(()) => Ok(RsaPrivateKey { private_key: pkey, algorithm, verify_any: false }),
            Err(e) => Err(e),
        }
    }

    /// Reads a private key from a PEM block. The block must hold an RSA key
    /// of at least 2048 bits that passes the consistency check; a key of
    /// another family is refused. The key that comes back is the key that
    /// the block holds.
    pub fn from_pem(pem: &[u8], algorithm: RsaAlgorithm) -> (r: Result<RsaPrivateKey, Error>)
        ensures
            pem@.len() > MAX_INPUT_LEN ==> r is Err,
            r matches Err(e) ==> e == Error::UnsupportedOrInvalidKey,
            r matches Ok(key) ==> {
                &&& pem_private_key(pem@) == Some(key.handle())
                &&& key.is_rsa()
                &&& key.bits() >= MIN_RSA_BITS
                &&& bit_length(key.modulus()) >= MIN_RSA_BITS
                &&& key.is_consistent()
                &&& key.algorithm() == algorithm
                &&& !key.verify_any()
            },
    {
        if pem.len() > MAX_INPUT_LEN {
            return Err(Error::UnsupportedOrInvalidKey);
        }
        match private_key_from_pem(pem) {
            Ok(pkey) => Self::from_pkey(pkey, algorithm),
            Err(_) => Err(Error::UnsupportedOrInvalidKey),
        }
    }

    /// Makes a key from the numbers that were read out of a record. With all
    /// five further numbers the key must pass the consistency check; with the
    /// modulus and the exponents alone the check is not made. Either way the
    /// key must be large enough, and no number may be longer than the
    /// primitive takes.
    pub fn from_material(material: &RsaPrivateMaterial) -> (r: Result<RsaPrivateKey, Error>)
        ensures
            material@.too_long(MAX_INPUT_LEN as nat) ==> r is Err,
            r matches Err(e) ==> e == Error::UnsupportedOrInvalidKey,
            r matches Ok(key) ==> key.made_from(material@),
    {
        if material.n.len() > MAX_INPUT_LEN || material.e.len() > MAX_INPUT_LEN || material.d.len()
            > MAX_INPUT_LEN {
            return Err(Error::UnsupportedOrInvalidKey);
        }
        let taken = match &material.crt {
            Some(crt) => {
                if crt.p.len() > MAX_INPUT_LEN || crt.q.len() > MAX_INPUT_LEN || crt.dp.len()
                    > MAX_INPUT_LEN || crt.dq.len() > MAX_INPUT_LEN || crt.qi.len()
                    > MAX_INPUT_LEN {
                    return Err(Error::UnsupportedOrInvalidKey);
                }
                match private_key_from_numbers(
                    material.n.as_slice(),
                    material.e.as_slice(),
                    material.d.as_slice(),
                    crt.p.as_slice(),
                    crt.q.as_slice(),
                    crt.dp.as_slice(),
                    crt.dq.as_slice(),
                    crt.qi.as_slice(),
                ) {
                    Ok(pkey) => Self::from_pkey(pkey, material.algorithm),
                    Err(_) => Err(Error::UnsupportedOrInvalidKey),
                }
            },
            None => match private_key_from_exponents(
                material.n.as_slice(),
                material.e.as_slice(),
                material.d.as_slice(),
            ) {
                Ok(pkey) => Self::from_pkey_without_check(pkey, material.algorithm),
                Err(_) => Err(Error::UnsupportedOrInvalidKey),
            },
        };
        match taken {
            Ok(mut key) => {
                key.set_verify_any(material.verify_any);
                Ok(key)
            },
            Err(e) => Err(e),
        }
    }

    /// The key as a PKCS#8 PEM block. Reading the block gives the key back.
    pub fn private_key_to_pem_pkcs8(&self) -> (r: Result<String, Error>)
        ensures
            is_pem_export(self.pkcs8_pem(), r),
            r is Ok ==> pem_private_key(self.pkcs8_pem()) == Some(self.handle()),
    {
        proof {
            use_type_invariant(self);
        }
        pem_text(made(private_pkcs8_pem(&self.private_key)))
    }

    /// The public half as a SubjectPublicKeyInfo PEM block. Reading the block
    /// as a public key gives the public half of this key.
    pub fn public_key_to_pem(&self) -> (r: Result<String, Error>)
        ensures
            is_pem_export(self.spki_pem(), r),
            r is Ok ==> reads_as_public_half(self.spki_pem(), self.handle()),
    {
        proof {
            use_type_invariant(self);
        }
        pem_text(made(private_spki_pem(&self.private_key)))
    }

    /// The public half as a PKCS#1 PEM block. Reading the block as a public
    /// key gives the public half of this key.
    pub fn public_key_to_pem_pkcs1(&self) -> (r: Result<String, Error>)
        ensures
            is_pem_export(self.pkcs1_pem(), r),
            r is Ok ==> reads_as_public_half(self.pkcs1_pem(), self.handle()),
    {
        proof {
            use_type_invariant(self);
        }
        pem_text(made(private_pkcs1_pem(&self.private_key)))
    }

    /// The modulus, big-endian, without a leading zero.
    pub fn n(&self) -> (r: Result<Vec<u8>, Error>)
        ensures
            r matches Ok(bytes) ==> bytes@ == be_bytes(self.modulus()) && is_minimal(bytes@),
            r matches Err(e) ==> e == Error::UnsupportedOrInvalidKey,
    {
        proof {
            lemma_bytes_minimal(self.modulus());
        }
        match private_modulus(&self.private_key) {
            Ok(bytes) => Ok(bytes),
            Err(_) => Err(Error::UnsupportedOrInvalidKey),
        }
    }

    /// The public exponent, big-endian, without a leading zero.
    pub fn e(&self) -> (r: Result<Vec<u8>, Error>)
        ensures
            r matches Ok(bytes) ==> bytes@ == be_bytes(self.public_exponent()) && is_minimal(
                bytes@,
            ),
            r matches Err(e) ==> e == Error::UnsupportedOrInvalidKey,
    {
        proof {
            lemma_bytes_minimal(self.public_exponent());
        }
        match private_exponent(&self.private_key) {
            Ok(bytes) => Ok(bytes),
            Err(_) => Err(Error::UnsupportedOrInvalidKey),
        }
    }

    /// The size of the key in bits, which is the bit length of its modulus:
    /// never less than 2048.
    pub fn key_bits(&self) -> (r: u32)
        ensures
            r == self.bits(),
            r == bit_length(self.modulus()),
            r >= MIN_RSA_BITS,
    {
        proof {
            use_type_invariant(self);
        }
        private_bits(&self.private_key)
    }

    /// Whether this key and another have the same public half.
    pub fn public_eq(&self, other: &RsaPrivateKey) -> (r: bool)
        ensures
            r == same_public_key(self.handle(), other.handle()),
    {
        private_public_eq(&self.private_key, &other.private_key)
    }
}

impl Clone for RsaPrivateKey {
    fn clone(&self) -> (r: RsaPrivateKey)
        ensures
            r == *self,
    {
        proof {
            use_type_invariant(self);
        }
        RsaPrivateKey {
            private_key: clone_private_key(&self.private_key),
            algorithm: self.algorithm,
            verify_any: self.verify_any,
        }
    }
}

impl PrivateKeyToJwk for RsaPrivateKey {
    open spec fn private_jwk(&self) -> Result<JwkView, Error> {
        JwkView::rsa_private(
            self.binding(),
            be_bytes(self.modulus()),
            be_bytes(self.public_exponent()),
            self.secrets().written(),
        )
    }

    /// Its algorithm if it is pinned and else the fallback, and its numbers,
    /// the five further ones where it has all five.
    open spec fn private_material(&self, fallback: RsaAlgorithm) -> RsaPrivateMaterialView {
        RsaPrivateMaterialView {
            algorithm: if self.spec_verify_any() {
                fallback
            } else {
                self.spec_algorithm()
            },
            verify_any: self.spec_verify_any(),
            n: be_bytes(self.modulus()),
            e: be_bytes(self.public_exponent()),
            d: be_bytes(self.secrets().d),
            crt: self.secrets().written().crt(),
        }
    }

    fn private_key_to_jwk(&self) -> (r: Result<Jwk, Error>) {
        let n = match self.n() {
            Ok(bytes) => bytes,
            Err(e) => { return Err(e); },
        };
        let e = match self.e() {
            Ok(bytes) => bytes,
            Err(e) => { return Err(e); },
        };
        let secrets = match private_secrets(&self.private_key) {
            Ok(secrets) => secrets,
            Err(_) => { return Err(Error::UnsupportedOrInvalidKey); },
        };
        let binding = AlgorithmBinding::of_private(self.algorithm, self.verify_any);
        Jwk::rsa_private(binding, n.as_slice(), e.as_slice(), &secrets)
    }
}

impl PublicKeyToJwk for RsaPrivateKey {
    open spec fn public_jwk(&self) -> Result<JwkView, Error> {
        JwkView::rsa_public(
            self.binding(),
            be_bytes(self.modulus()),
            be_bytes(self.public_exponent()),
        )
    }

    /// The modulus, the exponent, and the algorithm if the key is pinned.
    open spec fn public_material(&self) -> RsaPublicMaterialView {
        RsaPublicMaterialView {
            n: be_bytes(self.modulus()),
            e: be_bytes(self.public_exponent()),
            algorithm: self.binding().pinned(),
        }
    }

    fn public_key_to_jwk(&self) -> (r: Result<Jwk, Error>) {
        let n = match self.n() {
            Ok(bytes) => bytes,
            Err(e) => { return Err(e); },
        };
        let e = match self.e() {
            Ok(bytes) => bytes,
            Err(e) => { return Err(e); },
        };
        let binding = AlgorithmBinding::of_private(self.algorithm, self.verify_any);
        Jwk::rsa_public(binding, n.as_slice(), e.as_slice())
    }
}

impl SigningKey for RsaPrivateKey {
    open spec fn alg_view(&self) -> Seq<char> {
        self.spec_algorithm().name_view()
    }

    /// With a deterministic algorithm an RSA key gives one signature for a
    /// message; with a probabilistic one, any that the primitive makes. An
    /// RSA key whose numbers are consistent gives only signatures that are
    /// accepted under its modulus, its exponent and its own algorithm.
    open spec fn may_sign(&self, message: Seq<u8>, signature: Seq<u8>) -> bool {
        self.is_rsa() ==> {
            &&& !self.spec_algorithm().is_pss() ==> signature == pkcs1_signature(
                self.handle(),
                self.spec_algorithm().digest(),
                message,
            )
            &&& self.is_consistent() ==> self.accepts(self.spec_algorithm(), message, signature)
        }
    }

    /// Signs with the digest and the padding of the key's algorithm. With
    /// RSASSA-PSS the salt is as long as the digest.
    fn sign(&self, v: &[u8]) -> (r: Result<Signature, Error>) {
        let made = if self.algorithm.is_pss() {
            sign_pss(&self.private_key, self.algorithm.digest(), v)
        } else {
            sign_pkcs1(&self.private_key, self.algorithm.digest(), v)
        };
        match made {
            Ok(bytes) => Ok(Signature::from_vec(bytes)),
            Err(_) => Err(Error::SigningFailed),
        }
    }

    fn alg(&self) -> (r: &'static str) {
        self.algorithm.name()
    }
}

impl VerificationKey for RsaPrivateKey {
    open spec fn binding(&self) -> AlgorithmBinding {
        AlgorithmBinding::spec_of_private(self.spec_algorithm(), self.spec_verify_any())
    }

    /// What an RSA key accepts depends on its modulus and exponent alone.
    open spec fn accepts(
        &self,
        algorithm: RsaAlgorithm,
        message: Seq<u8>,
        signature: Seq<u8>,
    ) -> bool {
        rsa_accepts(
            self.modulus(),
            self.public_exponent(),
            algorithm.digest(),
            algorithm.is_pss(),
            message,
            signature,
        )
    }

    /// Verifies under the key's own algorithm, and only if its name is the one
    /// asserted; or, where the key verifies any, under the algorithm that the
    /// asserted name stands for.
    fn verify(&self, v: &[u8], sig: &[u8], alg: &str) -> (r: Result<(), Error>) {
        let binding = AlgorithmBinding::of_private(self.algorithm, self.verify_any);
        let algorithm = match binding.resolve(alg) {
            Ok(algorithm) => algorithm,
            Err(e) => { return Err(e); },
        };
        proof {
            use_type_invariant(self);
        }
        let answer = if algorithm.is_pss() {
            private_verify_pss(&self.private_key, algorithm.digest(), v, sig)
        } else {
            private_verify_pkcs1(&self.private_key, algorithm.digest(), v, sig)
        };
        verification_outcome(made(answer))
    }
}

impl RsaPrivateKey {
    /// An RSA key whose numbers are consistent verifies what it signed. The name of
    /// its own algorithm always resolves, the primitive accepts the signature,
    /// and `verify` answers `Ok`, or `VerificationFailed` where the primitive
    /// itself fails.
    ///
    /// `signature` is what `sign` returned for `message`, and `result` is what
    /// `verify` returned for the message, the signature and the name that
    /// `alg` gives.
    pub proof fn lemma_verifies_own_signature(
        self,
        message: Seq<u8>,
        signature: Seq<u8>,
        result: Result<(), Error>,
    )
        requires
            self.is_rsa(),
            self.is_consistent(),
            self.may_sign(message, signature),
            is_verification_result(
                self.binding().resolution(self.alg_view()),
                |algorithm: RsaAlgorithm| self.accepts(algorithm, message, signature),
                result,
            ),
        ensures
            self.binding().resolution(self.alg_view()) == Ok::<RsaAlgorithm, Error>(
                self.spec_algorithm(),
            ),
            self.accepts(self.spec_algorithm(), message, signature),
            result is Ok || result == Err::<(), Error>(Error::VerificationFailed),
    {
        AlgorithmBinding::lemma_own_name_resolves(self.spec_algorithm(), self.spec_verify_any());
    }
}

impl RsaPrivateKey {
    /// A private key that was written as a PEM block and read again is the
    /// same key: it has the same numbers, passes the same checks, is written
    /// as the same block, and accepts the same signatures.
    ///
    /// `self` was written by `private_key_to_pem_pkcs8`, and `back` is what
    /// `from_pem` returned for the bytes of that text.
    pub proof fn lemma_pem_round_trip(self, back: RsaPrivateKey)
        requires
            pem_private_key(self.pkcs8_pem()) == Some(self.handle()),
            pem_private_key(self.pkcs8_pem()) == Some(back.handle()),
        ensures
            back.handle() == self.handle(),
            back.modulus() == self.modulus(),
            back.public_exponent() == self.public_exponent(),
            back.secrets() == self.secrets(),
            back.bits() == self.bits(),
            back.is_consistent() == self.is_consistent(),
            back.pkcs8_pem() == self.pkcs8_pem(),
            forall|algorithm: RsaAlgorithm, message: Seq<u8>, signature: Seq<u8>|
                back.accepts(algorithm, message, signature) == self.accepts(
                    algorithm,
                    message,
                    signature,
                ),
    {
    }

    /// Two keys on the same RSA key with the same algorithm verify each
    /// other's signatures, if the numbers of the key are consistent: so a key
    /// and what was read from its PEM block do. The primitive accepts the
    /// signature, and `verify` answers `Ok`, or `VerificationFailed` where
    /// the primitive itself fails.
    ///
    /// `signature` is what `sign` of `self` returned for `message`, and
    /// `result` is what `verify` of `other` returned for the message, the
    /// signature and the name that `alg` gives.
    pub proof fn lemma_same_key_verifies(
        self,
        other: RsaPrivateKey,
        message: Seq<u8>,
        signature: Seq<u8>,
        result: Result<(), Error>,
    )
        requires
            other.handle() == self.handle(),
            other.spec_algorithm() == self.spec_algorithm(),
            self.is_rsa(),
            self.is_consistent(),
            self.may_sign(message, signature),
            is_verification_result(
                other.binding().resolution(self.alg_view()),
                |algorithm: RsaAlgorithm| other.accepts(algorithm, message, signature),
                result,
            ),
        ensures
            other.accepts(self.spec_algorithm(), message, signature),
            result is Ok || result == Err::<(), Error>(Error::VerificationFailed),
    {
        AlgorithmBinding::lemma_own_name_resolves(other.spec_algorithm(), other.spec_verify_any());
    }

    /// The public key that is read from a PEM block of this key's public
    /// half has the size, the modulus and the exponent of this key, so it
    /// accepts what this key accepts.
    ///
    /// `pem` is the block that `public_key_to_pem` or
    /// `public_key_to_pem_pkcs1` wrote, and `public` is what
    /// `RsaPublicKey::from_pem` returned for it.
    pub proof fn lemma_public_key_from_pem(self, pem: Seq<u8>, public: RsaPublicKey)
        requires
            reads_as_public_half(pem, self.handle()),
            read_public_pem(pem) == Some(public.handle()),
        ensures
            public.bits() == self.bits(),
            public.modulus() == self.modulus(),
            public.public_exponent() == self.public_exponent(),
            forall|algorithm: RsaAlgorithm, message: Seq<u8>, signature: Seq<u8>|
                public.accepts(algorithm, message, signature) == self.accepts(
                    algorithm,
                    message,
                    signature,
                ),
    {
    }
}

/// RSA public key.
///
/// With an algorithm the key verifies under that algorithm only; without
/// one, under any RSA algorithm. It is an RSA key, and its modulus has at
/// least 2048 bits.
#[derive(Debug)]
pub struct RsaPublicKey {
    public_key: PKey<Public>,
    algorithm: Option<RsaAlgorithm>,
}

impl RsaPublicKey {
    #[verifier::type_invariant]
    spec fn rsa_and_large_enough(self) -> bool {
        public_key_is_rsa(self.public_key) && public_key_bits(self.public_key) >= MIN_RSA_BITS
    }

    /// The handle of the key.
    pub closed spec fn handle(self) -> PKey<Public> {
        self.public_key
    }

    /// The algorithm that the key is pinned to, if it is pinned.
    pub closed spec fn spec_algorithm(&self) -> Option<RsaAlgorithm> {
        self.algorithm
    }

    /// Whether the key is of the RSA kind.
    pub open spec fn is_rsa(self) -> bool {
        public_key_is_rsa(self.handle())
    }

    /// The size of the key in bits.
    pub open spec fn bits(self) -> nat {
        public_key_bits(self.handle())
    }

    /// The modulus.
    pub open spec fn modulus(self) -> nat {
        public_key_modulus(self.handle())
    }

    /// The public exponent.
    pub open spec fn public_exponent(self) -> nat {
        public_key_exponent(self.handle())
    }

    /// The key as a SubjectPublicKeyInfo PEM block.
    pub open spec fn spki_pem(self) -> Seq<u8> {
        public_key_spki_pem(self.handle())
    }

    /// The key as a PKCS#1 PEM block.
    pub open spec fn pkcs1_pem(self) -> Seq<u8> {
        public_key_pkcs1_pem(self.handle())
    }

    /// Whether the key is one that the material gives: it has the algorithm,
    /// the modulus and the exponent of the material.
    pub open spec fn made_from(self, material: RsaPublicMaterialView) -> bool {
        &&& self.is_rsa()
        &&& self.bits() >= MIN_RSA_BITS
        &&& bit_length(self.modulus()) >= MIN_RSA_BITS
        &&& self.spec_algorithm() == material.algorithm
        &&& self.modulus() == be_value(material.n)
        &&& self.public_exponent() == be_value(material.e)
    }

    /// The algorithm that the key is pinned to, if it is pinned.
    #[verifier::when_used_as_spec(spec_algorithm)]
    pub fn algorithm(&self) -> (r: Option<RsaAlgorithm>)
        ensures
            r == self.spec_algorithm(),
    {
        self.algorithm
    }

    /// Takes a key that the primitive handed out, if it is an RSA key and
    /// large enough.
    pub(crate) fn from_pkey(pkey: PKey<Public>, algorithm: Option<RsaAlgorithm>) -> (r: Result<
        RsaPublicKey,
        Error,
    >)
        ensures
            r is Ok <==> public_key_is_rsa(pkey) && public_key_bits(pkey) >= MIN_RSA_BITS,
            r matches Err(e) ==> e == Error::UnsupportedOrInvalidKey,
            r matches Ok(key) ==> {
                &&& key.handle() == pkey
                &&& bit_length(key.modulus()) >= MIN_RSA_BITS
                &&& key.algorithm() == algorithm
            },
    {
        match public_key_admission(public_is_rsa(&pkey), public_bits(&pkey)) {
            Ok(()) => Ok(RsaPublicKey { public_key: pkey, algorithm }),
            Err(e) => Err(e),
        }
    }

    /// Reads a public key from a PEM block. Both `BEGIN PUBLIC KEY` and
    /// `BEGIN RSA PUBLIC KEY` are taken: a block of text in which `BEGIN RSA`
    /// stands is read as PKCS#1, any other as SubjectPublicKeyInfo. The block
    /// must hold an RSA key of at least 2048 bits, and the key that comes
    /// back is the key that the block holds.
    pub fn from_pem(pem: &[u8], algorithm: Option<RsaAlgorithm>) -> (r: Result<
        RsaPublicKey,
        Error,
    >)
        ensures
            pem@.len() > MAX_INPUT_LEN ==> r is Err,
            r matches Err(e) ==> e == Error::UnsupportedOrInvalidKey,
            r matches Ok(key) ==> {
                &&& read_public_pem(pem@) == Some(key.handle())
                &&& key.is_rsa()
                &&& key.bits() >= MIN_RSA_BITS
                &&& bit_length(key.modulus()) >= MIN_RSA_BITS
                &&& key.algorithm() == algorithm
            },
    {
        if pem.len() > MAX_INPUT_LEN {
            return Err(Error::UnsupportedOrInvalidKey);
        }
        let read = if sniff_pkcs1(pem) {
            public_key_from_pkcs1_pem(pem)
        } else {
            public_key_from_pem(pem)
        };
        match read {
            Ok(pkey) => Self::from_pkey(pkey, algorithm),
            Err(_) => Err(Error::UnsupportedOrInvalidKey),
        }
    }

    /// Makes a public key from its modulus and exponent, each big-endian.
    pub fn from_components(n: &[u8], e: &[u8], algorithm: Option<RsaAlgorithm>) -> (r: Result<
        RsaPublicKey,
        Error,
    >)
        ensures
            n@.len() > MAX_INPUT_LEN || e@.len() > MAX_INPUT_LEN ==> r is Err,
            r matches Err(e) ==> e == Error::UnsupportedOrInvalidKey,
            r matches Ok(key) ==> key.made_from(
                RsaPublicMaterialView { n: n@, e: e@, algorithm },
            ),
    {
        if n.len() > MAX_INPUT_LEN || e.len() > MAX_INPUT_LEN {
            return Err(Error::UnsupportedOrInvalidKey);
        }
        match public_key_from_numbers(n, e) {
            Ok(pkey) => Self::from_pkey(pkey, algorithm),
            Err(_) => Err(Error::UnsupportedOrInvalidKey),
        }
    }

    /// The size of the key in bits, which is the bit length of its modulus:
    /// never less than 2048.
    pub fn key_bits(&self) -> (r: u32)
        ensures
            r == self.bits(),
            r == bit_length(self.modulus()),
            r >= MIN_RSA_BITS,
    {
        proof {
            use_type_invariant(self);
        }
        public_bits(&self.public_key)
    }

    /// BEGIN PUBLIC KEY. Reading the block gives the key back.
    pub fn to_pem(&self) -> (r: Result<String, Error>)
        ensures
            is_pem_export(self.spki_pem(), r),
            r is Ok ==> read_public_pem(self.spki_pem()) == Some(self.handle()),
    {
        proof {
            use_type_invariant(self);
        }
        pem_text(made(public_spki_pem(&self.public_key)))
    }

    /// BEGIN RSA PUBLIC KEY. Reading the block gives the key back.
    pub fn to_pem_pkcs1(&self) -> (r: Result<String, Error>)
        ensures
            is_pem_export(self.pkcs1_pem(), r),
            r is Ok ==> read_public_pem(self.pkcs1_pem()) == Some(self.handle()),
    {
        proof {
            use_type_invariant(self);
        }
        pem_text(made(public_pkcs1_pem(&self.public_key)))
    }

    /// The modulus, big-endian, without a leading zero.
    pub fn n(&self) -> (r: Result<Vec<u8>, Error>)
        ensures
            r matches Ok(bytes) ==> bytes@ == be_bytes(self.modulus()) && is_minimal(bytes@),
            r matches Err(e) ==> e == Error::UnsupportedOrInvalidKey,
    {
        proof {
            lemma_bytes_minimal(self.modulus());
        }
        match public_modulus(&self.public_key) {
            Ok(bytes) => Ok(bytes),
            Err(_) => Err(Error::UnsupportedOrInvalidKey),
        }
    }

    /// The public exponent, big-endian, without a leading zero.
    pub fn e(&self) -> (r: Result<Vec<u8>, Error>)
        ensures
            r matches Ok(bytes) ==> bytes@ == be_bytes(self.public_exponent()) && is_minimal(
                bytes@,
            ),
            r matches Err(e) ==> e == Error::UnsupportedOrInvalidKey,
    {
        proof {
            lemma_bytes_minimal(self.public_exponent());
        }
        match public_exponent(&self.public_key) {
            Ok(bytes) => Ok(bytes),
            Err(_) => Err(Error::UnsupportedOrInvalidKey),
        }
    }
}

impl PublicKeyToJwk for RsaPublicKey {
    open spec fn public_jwk(&self) -> Result<JwkView, Error> {
        JwkView::rsa_public(
            self.binding(),
            be_bytes(self.modulus()),
            be_bytes(self.public_exponent()),
        )
    }

    /// The modulus, the exponent, and the algorithm if the key has one.
    open spec fn public_material(&self) -> RsaPublicMaterialView {
        RsaPublicMaterialView {
            n: be_bytes(self.modulus()),
            e: be_bytes(self.public_exponent()),
            algorithm: self.spec_algorithm(),
        }
    }

    fn public_key_to_jwk(&self) -> (r: Result<Jwk, Error>) {
        let n = match self.n() {
            Ok(bytes) => bytes,
            Err(e) => { return Err(e); },
        };
        let e = match self.e() {
            Ok(bytes) => bytes,
            Err(e) => { return Err(e); },
        };
        Jwk::rsa_public(AlgorithmBinding::of_public(self.algorithm), n.as_slice(), e.as_slice())
    }
}

impl VerificationKey for RsaPublicKey {
    open spec fn binding(&self) -> AlgorithmBinding {
        AlgorithmBinding::spec_of_public(self.spec_algorithm())
    }

    /// What an RSA public key accepts depends on its modulus and exponent
    /// alone.
    open spec fn accepts(
        &self,
        algorithm: RsaAlgorithm,
        message: Seq<u8>,
        signature: Seq<u8>,
    ) -> bool {
        rsa_accepts(
            self.modulus(),
            self.public_exponent(),
            algorithm.digest(),
            algorithm.is_pss(),
            message,
            signature,
        )
    }

    /// Verifies under the key's algorithm, and only if its name is the one
    /// asserted; or, where the key has none, under the algorithm that the
    /// asserted name stands for.
    fn verify(&self, v: &[u8], sig: &[u8], alg: &str) -> (r: Result<(), Error>) {
        let algorithm = match AlgorithmBinding::of_public(self.algorithm).resolve(alg) {
            Ok(algorithm) => algorithm,
            Err(e) => { return Err(e); },
        };
        proof {
            use_type_invariant(self);
        }
        let answer = if algorithm.is_pss() {
            public_verify_pss(&self.public_key, algorithm.digest(), v, sig)
        } else {
            public_verify_pkcs1(&self.public_key, algorithm.digest(), v, sig)
        };
        verification_outcome(made(answer))
    }
}

impl RsaPublicKey {
    /// A public key that was written as a PEM block, in either form, and
    /// read again is the same key: it has the same size, modulus and
    /// exponent, and accepts the same signatures.
    ///
    /// `pem` is the block that `to_pem` or `to_pem_pkcs1` wrote, and `back`
    /// is what `from_pem` returned for it.
    pub proof fn lemma_pem_round_trip(self, pem: Seq<u8>, back: RsaPublicKey)
        requires
            read_public_pem(pem) == Some(self.handle()),
            read_public_pem(pem) == Some(back.handle()),
        ensures
            back.handle() == self.handle(),
            back.bits() == self.bits(),
            back.modulus() == self.modulus(),
            back.public_exponent() == self.public_exponent(),
            forall|algorithm: RsaAlgorithm, message: Seq<u8>, signature: Seq<u8>|
                back.accepts(algorithm, message, signature) == self.accepts(
                    algorithm,
                    message,
                    signature,
                ),
    {
    }
}

} // verus!
