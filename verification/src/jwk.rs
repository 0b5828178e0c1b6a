//! The JSON record of a key, and the conversion between a key's numbers and
//! the fields of the record.

use crate::algorithm::{AlgorithmBinding, RsaAlgorithm};
use crate::base64url::{
    base64url_text, decode, decoded, encodable_len, encode, is_base64url_text,
};
use crate::error::Error;
use crate::material::{
    RsaCrt, RsaCrtView, RsaPrivateMaterial, RsaPrivateMaterialView, RsaPublicMaterial,
    RsaPublicMaterialView, RsaSecrets, RsaSecretsView,
};
use crate::text::str_eq;
use crate::views::{opt_view, result_view};
use vstd::prelude::*;

verus! {

/// A key as a JSON object: the key type, the algorithm the key is bound to if
/// it is bound to one, what the key is for, and the numbers of the key, each
/// as unpadded base64url of its big-endian bytes.
#[derive(Debug, Clone, PartialEq, Eq)]
pub struct Jwk {
    pub kty: String,
    pub alg: Option<String>,
    pub use_: Option<String>,
    pub n: Option<String>,
    pub e: Option<String>,
    pub d: Option<String>,
    pub p: Option<String>,
    pub q: Option<String>,
    pub dp: Option<String>,
    pub dq: Option<String>,
    pub qi: Option<String>,
}

/// What a record holds, as sequences of characters.
pub ghost struct JwkView {
    pub kty: Seq<char>,
    pub alg: Option<Seq<char>>,
    pub use_: Option<Seq<char>>,
    pub n: Option<Seq<char>>,
    pub e: Option<Seq<char>>,
    pub d: Option<Seq<char>>,
    pub p: Option<Seq<char>>,
    pub q: Option<Seq<char>>,
    pub dp: Option<Seq<char>>,
    pub dq: Option<Seq<char>>,
    pub qi: Option<Seq<char>>,
}

impl View for Jwk {
    type V = JwkView;

    open spec fn view(&self) -> JwkView {
        JwkView {
            kty: self.kty@,
            alg: opt_view(self.alg),
            use_: opt_view(self.use_),
            n: opt_view(self.n),
            e: opt_view(self.e),
            d: opt_view(self.d),
            p: opt_view(self.p),
            q: opt_view(self.q),
            dp: opt_view(self.dp),
            dq: opt_view(self.dq),
            qi: opt_view(self.qi),
        }
    }
}

impl JwkView {
    /// The record with an empty key type and no other field.
    pub open spec fn empty() -> JwkView {
        JwkView {
            kty: Seq::empty(),
            alg: None,
            use_: None,
            n: None,
            e: None,
            d: None,
            p: None,
            q: None,
            dp: None,
            dq: None,
            qi: None,
        }
    }
}

impl Default for Jwk {
    fn default() -> (r: Jwk)
        ensures
            r@ == JwkView::empty(),
    {
        Jwk {
            kty: String::new(),
            alg: None,
            use_: None,
            n: None,
            e: None,
            d: None,
            p: None,
            q: None,
            dp: None,
            dq: None,
            qi: None,
        }
    }
}

/// Whether a field that may be absent holds characters of the URL-safe
/// alphabet only.
pub open spec fn opt_is_base64url(field: Option<Seq<char>>) -> bool {
    field matches Some(text) ==> is_base64url_text(text)
}

/// The text of a number that may be absent.
pub open spec fn opt_number_text(bytes: Option<Seq<u8>>) -> Option<Seq<char>> {
    match bytes {
        Some(b) => Some(base64url_text(b)),
        None => None,
    }
}

/// Whether a number that may be absent is short enough to be written.
pub open spec fn opt_encodable(bytes: Option<Seq<u8>>) -> bool {
    match bytes {
        Some(b) => encodable_len(b.len()),
        None => true,
    }
}

/// The bytes of a number that a record must hold. A field that is missing or
/// is not base64url makes the record unusable.
pub open spec fn required_number(field: Option<Seq<char>>) -> Result<Seq<u8>, Error> {
    match field {
        None => Err(Error::UnsupportedOrInvalidKey),
        Some(text) => match decoded(text) {
            Ok(bytes) => Ok(bytes),
            Err(_) => Err(Error::UnsupportedOrInvalidKey),
        },
    }
}

/// The algorithm that a record names, if it names one. A name that is not a
/// known algorithm's is an error.
pub open spec fn named_algorithm(alg: Option<Seq<char>>) -> Result<Option<RsaAlgorithm>, Error> {
    match alg {
        None => Ok(None),
        Some(name) => match RsaAlgorithm::parse(name) {
            Ok(a) => Ok(Some(a)),
            Err(e) => Err(e),
        },
    }
}

impl JwkView {
    /// Whether every number in the record is written in the URL-safe
    /// alphabet, without padding.
    pub open spec fn numbers_are_base64url(self) -> bool {
        &&& opt_is_base64url(self.n)
        &&& opt_is_base64url(self.e)
        &&& opt_is_base64url(self.d)
        &&& opt_is_base64url(self.p)
        &&& opt_is_base64url(self.q)
        &&& opt_is_base64url(self.dp)
        &&& opt_is_base64url(self.dq)
        &&& opt_is_base64url(self.qi)
    }

    /// The record of an RSA public key.
    pub open spec fn rsa_public(binding: AlgorithmBinding, n: Seq<u8>, e: Seq<u8>) -> Result<
        JwkView,
        Error,
    > {
        if encodable_len(n.len()) && encodable_len(e.len()) {
            Ok(
                JwkView {
                    kty: "RSA"@,
                    alg: binding.published_name(),
                    use_: Some("sig"@),
                    n: Some(base64url_text(n)),
                    e: Some(base64url_text(e)),
                    d: None,
                    p: None,
                    q: None,
                    dp: None,
                    dq: None,
                    qi: None,
                },
            )
        } else {
            Err(Error::EncodingError)
        }
    }

    /// The record of an RSA private key. Each of the five further numbers
    /// stands in the record if the key has it.
    pub open spec fn rsa_private(
        binding: AlgorithmBinding,
        n: Seq<u8>,
        e: Seq<u8>,
        secrets: RsaSecretsView,
    ) -> Result<JwkView, Error> {
        if encodable_len(n.len()) && encodable_len(e.len()) && encodable_len(secrets.d.len())
            && opt_encodable(secrets.p) && opt_encodable(secrets.q) && opt_encodable(secrets.dp)
            && opt_encodable(secrets.dq) && opt_encodable(secrets.qi) {
            Ok(
                JwkView {
                    kty: "RSA"@,
                    alg: binding.published_name(),
                    use_: Some("sig"@),
                    n: Some(base64url_text(n)),
                    e: Some(base64url_text(e)),
                    d: Some(base64url_text(secrets.d)),
                    p: opt_number_text(secrets.p),
                    q: opt_number_text(secrets.q),
                    dp: opt_number_text(secrets.dp),
                    dq: opt_number_text(secrets.dq),
                    qi: opt_number_text(secrets.qi),
                },
            )
        } else {
            Err(Error::EncodingError)
        }
    }

    /// What the record says of an RSA public key. The key type must be `RSA`;
    /// the algorithm, if one is named, must be known; the modulus and the
    /// exponent must be there and be base64url.
    pub open spec fn verification_material(self) -> Result<RsaPublicMaterialView, Error> {
        if self.kty != "RSA"@ {
            Err(Error::UnsupportedOrInvalidKey)
        } else {
            match named_algorithm(self.alg) {
                Err(e) => Err(e),
                Ok(algorithm) => match (required_number(self.n), required_number(self.e)) {
                    (Ok(n), Ok(e)) => Ok(RsaPublicMaterialView { n, e, algorithm }),
                    _ => Err(Error::UnsupportedOrInvalidKey),
                },
            }
        }
    }

    /// Whether the record holds all five further numbers of a private key.
    pub open spec fn has_crt(self) -> bool {
        self.p is Some && self.q is Some && self.dp is Some && self.dq is Some && self.qi is Some
    }

    /// The five further numbers of a private key: all of them where the
    /// record holds all five, none where it lacks one.
    pub open spec fn crt_material(self) -> Result<Option<RsaCrtView>, Error> {
        if !self.has_crt() {
            Ok(None)
        } else {
            match (
                required_number(self.p),
                required_number(self.q),
                required_number(self.dp),
                required_number(self.dq),
                required_number(self.qi),
            ) {
                (Ok(p), Ok(q), Ok(dp), Ok(dq), Ok(qi)) => Ok(
                    Some(RsaCrtView { p, q, dp, dq, qi }),
                ),
                _ => Err(Error::UnsupportedOrInvalidKey),
            }
        }
    }

    /// What the record says of an RSA private key. The key type must be
    /// `RSA`. A record that names an algorithm gives a key pinned to it; one
    /// that names none gives a key that signs with `fallback` and verifies
    /// under any algorithm. The modulus and both exponents must be there.
    pub open spec fn signing_material(self, fallback: RsaAlgorithm) -> Result<
        RsaPrivateMaterialView,
        Error,
    > {
        if self.kty != "RSA"@ {
            Err(Error::UnsupportedOrInvalidKey)
        } else {
            match named_algorithm(self.alg) {
                Err(e) => Err(e),
                Ok(named) => match (
                    required_number(self.n),
                    required_number(self.e),
                    required_number(self.d),
                    self.crt_material(),
                ) {
                    (Ok(n), Ok(e), Ok(d), Ok(crt)) => Ok(
                        RsaPrivateMaterialView {
                            algorithm: match named {
                                Some(a) => a,
                                None => fallback,
                            },
                            verify_any: named is None,
                            n,
                            e,
                            d,
                            crt,
                        },
                    ),
                    _ => Err(Error::UnsupportedOrInvalidKey),
                },
            }
        }
    }
}

/// Reads a number that a record must hold.
fn read_required(field: &Option<String>) -> (r: Result<Vec<u8>, Error>)
    ensures
        result_view(r) == required_number(opt_view(*field)),
{
    match field {
        None => Err(Error::UnsupportedOrInvalidKey),
        Some(text) => match decode(text.as_str()) {
            Ok(bytes) => Ok(bytes),
            Err(_) => Err(Error::UnsupportedOrInvalidKey),
        },
    }
}

/// Reads the algorithm that a record names, if it names one.
fn read_algorithm(alg: &Option<String>) -> (r: Result<Option<RsaAlgorithm>, Error>)
    ensures
        r == named_algorithm(opt_view(*alg)),
{
    match alg {
        None => Ok(None),
        Some(name) => match RsaAlgorithm::from_name(name.as_str()) {
            Ok(a) => Ok(Some(a)),
            Err(e) => Err(e),
        },
    }
}

/// Writes a number that may be absent.
fn write_optional(bytes: &Option<Vec<u8>>) -> (r: Result<Option<String>, Error>)
    ensures
        match r {
            Ok(text) => {
                &&& opt_encodable(opt_view(*bytes))
                &&& opt_view(text) == opt_number_text(opt_view(*bytes))
                &&& opt_is_base64url(opt_view(text))
                &&& bytes matches Some(b) ==> decoded(text.unwrap()@) == Ok::<Seq<u8>, Error>(b@)
            },
            Err(e) => e == Error::EncodingError && !opt_encodable(opt_view(*bytes)),
        },
{
    match bytes {
        None => Ok(None),
        Some(b) => match encode(b.as_slice()) {
            Ok(text) => Ok(Some(text)),
            Err(e) => Err(e),
        },
    }
}

impl Jwk {
    /// The record of an RSA public key with the given modulus and exponent.
    /// It names the algorithm if the key is pinned to one, and its numbers
    /// hold no character outside the URL-safe alphabet. Reading the record
    /// back gives the same numbers and the same algorithm.
    pub fn rsa_public(binding: AlgorithmBinding, n: &[u8], e: &[u8]) -> (r: Result<Jwk, Error>)
        ensures
            result_view(r) == JwkView::rsa_public(binding, n@, e@),
            r matches Ok(jwk) ==> jwk@.numbers_are_base64url(),
            r matches Ok(jwk) ==> jwk@.verification_material() == Ok::<
                RsaPublicMaterialView,
                Error,
            >(RsaPublicMaterialView { n: n@, e: e@, algorithm: binding.pinned() }),
    {
        let n_text = match encode(n) {
            Ok(text) => text,
            Err(e) => { return Err(e); },
        };
        let e_text = match encode(e) {
            Ok(text) => text,
            Err(e) => { return Err(e); },
        };
        let alg = match binding {
            AlgorithmBinding::Pinned(a) => {
                proof {
                    a.lemma_parse_name();
                }
                Some(a.name().to_owned())
            },
            AlgorithmBinding::Permissive => None,
        };
        Ok(
            Jwk {
                kty: "RSA".to_owned(),
                alg,
                use_: Some("sig".to_owned()),
                n: Some(n_text),
                e: Some(e_text),
                d: None,
                p: None,
                q: None,
                dp: None,
                dq: None,
                qi: None,
            },
        )
    }

    /// The record of an RSA private key. Each of the five further numbers
    /// stands in the record if the key has it, and no number holds a
    /// character outside the URL-safe alphabet. Reading the record back gives
    /// the same numbers, the five further ones only if all five are there.
    pub fn rsa_private(binding: AlgorithmBinding, n: &[u8], e: &[u8], secrets: &RsaSecrets) -> (r:
        Result<Jwk, Error>)
        ensures
            result_view(r) == JwkView::rsa_private(binding, n@, e@, secrets@),
            r matches Ok(jwk) ==> jwk@.numbers_are_base64url(),
            r matches Ok(jwk) ==> forall|fallback: RsaAlgorithm| #[trigger]
                jwk@.signing_material(fallback) == Ok::<RsaPrivateMaterialView, Error>(
                    RsaPrivateMaterialView {
                        algorithm: match binding.pinned() {
                            Some(a) => a,
                            None => fallback,
                        },
                        verify_any: binding == AlgorithmBinding::Permissive,
                        n: n@,
                        e: e@,
                        d: secrets@.d,
                        crt: secrets@.crt(),
                    },
                ),
    {
        let n_text = match encode(n) {
            Ok(text) => text,
            Err(e) => { return Err(e); },
        };
        let e_text = match encode(e) {
            Ok(text) => text,
            Err(e) => { return Err(e); },
        };
        let d_text = match encode(secrets.d.as_slice()) {
            Ok(text) => text,
            Err(e) => { return Err(e); },
        };
        let p = match write_optional(&secrets.p) {
            Ok(text) => text,
            Err(e) => { return Err(e); },
        };
        let q = match write_optional(&secrets.q) {
            Ok(text) => text,
            Err(e) => { return Err(e); },
        };
        let dp = match write_optional(&secrets.dp) {
            Ok(text) => text,
            Err(e) => { return Err(e); },
        };
        let dq = match write_optional(&secrets.dq) {
            Ok(text) => text,
            Err(e) => { return Err(e); },
        };
        let qi = match write_optional(&secrets.qi) {
            Ok(text) => text,
            Err(e) => { return Err(e); },
        };
        let alg = match binding {
            AlgorithmBinding::Pinned(a) => {
                proof {
                    a.lemma_parse_name();
                }
                Some(a.name().to_owned())
            },
            AlgorithmBinding::Permissive => None,
        };
        Ok(
            Jwk {
                kty: "RSA".to_owned(),
                alg,
                use_: Some("sig".to_owned()),
                n: Some(n_text),
                e: Some(e_text),
                d: Some(d_text),
                p,
                q,
                dp,
                dq,
                qi,
            },
        )
    }

    /// Reads out of the record what it says of an RSA public key.
    pub fn verification_material(&self) -> (r: Result<RsaPublicMaterial, Error>)
        ensures
            result_view(r) == self@.verification_material(),
    {
        if !str_eq(self.kty.as_str(), "RSA") {
            return Err(Error::UnsupportedOrInvalidKey);
        }
        let algorithm = match read_algorithm(&self.alg) {
            Ok(a) => a,
            Err(e) => { return Err(e); },
        };
        let n = read_required(&self.n);
        let e = read_required(&self.e);
        match (n, e) {
            (Ok(n), Ok(e)) => Ok(RsaPublicMaterial { n, e, algorithm }),
            _ => Err(Error::UnsupportedOrInvalidKey),
        }
    }

    /// Reads the five further numbers of a private key out of the record.
    fn crt_material(&self) -> (r: Result<Option<RsaCrt>, Error>)
        ensures
            match r {
                Ok(crt) => self@.crt_material() == Ok::<Option<RsaCrtView>, Error>(opt_view(crt)),
                Err(e) => self@.crt_material() == Err::<Option<RsaCrtView>, Error>(e),
            },
    {
        if self.p.is_none() || self.q.is_none() || self.dp.is_none() || self.dq.is_none()
            || self.qi.is_none() {
            return Ok(None);
        }
        let p = read_required(&self.p);
        let q = read_required(&self.q);
        let dp = read_required(&self.dp);
        let dq = read_required(&self.dq);
        let qi = read_required(&self.qi);
        match (p, q, dp, dq, qi) {
            (Ok(p), Ok(q), Ok(dp), Ok(dq), Ok(qi)) => Ok(Some(RsaCrt { p, q, dp, dq, qi })),
            _ => Err(Error::UnsupportedOrInvalidKey),
        }
    }

    /// Reads out of the record what it says of an RSA private key.
    pub fn signing_material(&self, fallback: RsaAlgorithm) -> (r: Result<RsaPrivateMaterial, Error>)
        ensures
            result_view(r) == self@.signing_material(fallback),
    {
        if !str_eq(self.kty.as_str(), "RSA") {
            return Err(Error::UnsupportedOrInvalidKey);
        }
        let named = match read_algorithm(&self.alg) {
            Ok(a) => a,
            Err(e) => { return Err(e); },
        };
        let n = read_required(&self.n);
        let e = read_required(&self.e);
        let d = read_required(&self.d);
        let crt = self.crt_material();
        match (n, e, d, crt) {
            (Ok(n), Ok(e), Ok(d), Ok(crt)) => {
                let (algorithm, verify_any) = match named {
                    Some(a) => (a, false),
                    None => (fallback, true),
                };
                Ok(RsaPrivateMaterial { algorithm, verify_any, n, e, d, crt })
            },
            _ => Err(Error::UnsupportedOrInvalidKey),
        }
    }
}

} // verus!
