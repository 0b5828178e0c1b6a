//! The boundary to OpenSSL: the key handles, and one small function for each
//! thing that the library asks of them. Nothing in this file is proved. Each
//! contract states what the called functions are documented to do, over names
//! for what a handle holds and for what a primitive answers.

use crate::algorithm::DigestKind;
use crate::material::{RsaSecretNumbers, RsaSecrets};
use crate::numbers::{be_bytes, be_value, bit_length};
use crate::text::is_pkcs1_pem;
use openssl::bn::BigNum;
use openssl::error::ErrorStack;
use openssl::hash::MessageDigest;
use openssl::pkey::{Id, PKey, Private, Public};
use openssl::rsa::{Padding, Rsa, RsaPrivateKeyBuilder};
use openssl::sign::{RsaPssSaltlen, Signer, Verifier};
use vstd::prelude::*;

verus! {

/// `openssl::error::ErrorStack`: the errors that a failed call left behind.
/// The library never looks into it.
#[verifier::external_type_specification]
#[verifier::external_body]
pub struct ExErrorStack(ErrorStack);

/// `openssl::pkey::Private`: the tag of a handle that has the private half of
/// a key.
#[verifier::external_type_specification]
#[verifier::external_body]
pub struct ExPrivate(Private);

/// `openssl::pkey::Public`: the tag of a handle that has the public half of a
/// key only.
#[verifier::external_type_specification]
#[verifier::external_body]
pub struct ExPublic(Public);

/// `openssl::pkey::PKey`: the handle of a key of whatever kind.
#[verifier::external_type_specification]
#[verifier::external_body]
#[verifier::reject_recursive_types(T)]
pub struct ExPKey<T>(PKey<T>);

/// The longest byte string that OpenSSL takes as one argument.
pub const MAX_INPUT_LEN: usize = 0x7fff_ffff;

// What a private handle holds, and what the primitives answer for it.

/// The size of the key in a private handle, in bits.
pub uninterp spec fn private_key_bits(key: PKey<Private>) -> nat;

/// Whether the key in a private handle is of the RSA kind.
pub uninterp spec fn private_key_is_rsa(key: PKey<Private>) -> bool;

/// Whether the numbers in a private handle pass OpenSSL's consistency check.
pub uninterp spec fn private_key_consistent(key: PKey<Private>) -> bool;

/// The modulus in a private handle.
pub uninterp spec fn private_key_modulus(key: PKey<Private>) -> nat;

/// The public exponent in a private handle.
pub uninterp spec fn private_key_exponent(key: PKey<Private>) -> nat;

/// The secret numbers in a private handle.
pub uninterp spec fn private_key_secrets(key: PKey<Private>) -> RsaSecretNumbers;

/// The PEM text of a private handle's key as a PKCS#8 structure.
pub uninterp spec fn private_key_pkcs8_pem(key: PKey<Private>) -> Seq<u8>;

/// The PEM text of a private handle's public half as a SubjectPublicKeyInfo
/// structure.
pub uninterp spec fn private_key_spki_pem(key: PKey<Private>) -> Seq<u8>;

/// The PEM text of a private handle's public half as a PKCS#1 structure.
pub uninterp spec fn private_key_pkcs1_pem(key: PKey<Private>) -> Seq<u8>;

/// The signature that RSASSA-PKCS1-v1_5, which uses no randomness, gives for
/// a message under the RSA key of a private handle.
pub uninterp spec fn pkcs1_signature(
    key: PKey<Private>,
    digest: DigestKind,
    message: Seq<u8>,
) -> Seq<u8>;

/// Whether OpenSSL finds the public halves of two private handles equal.
pub uninterp spec fn same_public_key(a: PKey<Private>, b: PKey<Private>) -> bool;

/// The private key that a PEM block holds, if it holds one.
pub uninterp spec fn pem_private_key(pem: Seq<u8>) -> Option<PKey<Private>>;

// What a public handle holds.

/// Whether the key in a public handle is of the RSA kind.
pub uninterp spec fn public_key_is_rsa(key: PKey<Public>) -> bool;

/// The size of the key in a public handle, in bits.
pub uninterp spec fn public_key_bits(key: PKey<Public>) -> nat;

/// The modulus in a public handle.
pub uninterp spec fn public_key_modulus(key: PKey<Public>) -> nat;

/// The public exponent in a public handle.
pub uninterp spec fn public_key_exponent(key: PKey<Public>) -> nat;

/// The PEM text of a public handle's key as a SubjectPublicKeyInfo structure.
pub uninterp spec fn public_key_spki_pem(key: PKey<Public>) -> Seq<u8>;

/// The PEM text of a public handle's key as a PKCS#1 structure.
pub uninterp spec fn public_key_pkcs1_pem(key: PKey<Public>) -> Seq<u8>;

/// The public key that a SubjectPublicKeyInfo PEM block holds, if it holds
/// one.
pub uninterp spec fn pem_public_key(pem: Seq<u8>) -> Option<PKey<Public>>;

/// The RSA public key that a PKCS#1 PEM block holds, if it holds one.
pub uninterp spec fn pkcs1_pem_public_key(pem: Seq<u8>) -> Option<PKey<Public>>;

/// Whether a public handle holds the public half of the RSA key in a private
/// handle: an RSA key of the same size, with the same modulus and exponent.
pub open spec fn is_public_half(public: PKey<Public>, private: PKey<Private>) -> bool {
    &&& public_key_is_rsa(public)
    &&& public_key_bits(public) == private_key_bits(private)
    &&& public_key_modulus(public) == private_key_modulus(private)
    &&& public_key_exponent(public) == private_key_exponent(private)
}

/// The public key that `RsaPublicKey::from_pem` reads out of a PEM block: a
/// block with the marker of PKCS#1 is read as PKCS#1, any other as
/// SubjectPublicKeyInfo.
pub open spec fn read_public_pem(pem: Seq<u8>) -> Option<PKey<Public>> {
    if is_pkcs1_pem(pem) {
        pkcs1_pem_public_key(pem)
    } else {
        pem_public_key(pem)
    }
}

/// Whether reading a PEM block as a public key gives the public half of the
/// RSA key in a private handle.
pub open spec fn reads_as_public_half(pem: Seq<u8>, private: PKey<Private>) -> bool {
    read_public_pem(pem) matches Some(public) && is_public_half(public, private)
}

/// Whether a signature is accepted for a message under the RSA public key
/// with the given modulus and exponent. With `pss` the padding is RSASSA-PSS
/// with a salt as long as the digest; without it, RSASSA-PKCS1-v1_5.
pub uninterp spec fn rsa_accepts(
    modulus: nat,
    exponent: nat,
    digest: DigestKind,
    pss: bool,
    message: Seq<u8>,
    signature: Seq<u8>,
) -> bool;

// Private handles.

/// `Rsa::generate`, then `PKey::from_rsa`: a fresh RSA key pair of the size
/// asked for, whose numbers are consistent.
#[verifier::external_body]
pub(crate) fn generate_private_key(bits: u32) -> (r: Result<PKey<Private>, ErrorStack>)
    ensures
        r matches Ok(key) ==> {
            &&& private_key_is_rsa(key)
            &&& private_key_bits(key) == bits
            &&& private_key_consistent(key)
        },
{
    PKey::from_rsa(Rsa::generate(bits)?)
}

/// `PKey::private_key_from_pem`: the private key of whatever kind that the
/// PEM block holds. Whether a key comes back is left open: for an encrypted
/// block OpenSSL asks for a passphrase.
#[verifier::external_body]
pub(crate) fn private_key_from_pem(pem: &[u8]) -> (r: Result<PKey<Private>, ErrorStack>)
    requires
        pem@.len() <= MAX_INPUT_LEN,
    ensures
        r matches Ok(key) ==> pem_private_key(pem@) == Some(key),
{
    PKey::private_key_from_pem(pem)
}

/// `BigNum::from_slice` on each number, `Rsa::from_private_components`, then
/// `PKey::from_rsa`: a handle on an RSA key with the eight numbers given.
#[verifier::external_body]
pub(crate) fn private_key_from_numbers(
    n: &[u8],
    e: &[u8],
    d: &[u8],
    p: &[u8],
    q: &[u8],
    dp: &[u8],
    dq: &[u8],
    qi: &[u8],
) -> (r: Result<PKey<Private>, ErrorStack>)
    requires
        n@.len() <= MAX_INPUT_LEN,
        e@.len() <= MAX_INPUT_LEN,
        d@.len() <= MAX_INPUT_LEN,
        p@.len() <= MAX_INPUT_LEN,
        q@.len() <= MAX_INPUT_LEN,
        dp@.len() <= MAX_INPUT_LEN,
        dq@.len() <= MAX_INPUT_LEN,
        qi@.len() <= MAX_INPUT_LEN,
    ensures
        r matches Ok(key) ==> {
            &&& private_key_is_rsa(key)
            &&& private_key_modulus(key) == be_value(n@)
            &&& private_key_exponent(key) == be_value(e@)
            &&& private_key_secrets(key) == (RsaSecretNumbers {
                d: be_value(d@),
                p: Some(be_value(p@)),
                q: Some(be_value(q@)),
                dp: Some(be_value(dp@)),
                dq: Some(be_value(dq@)),
                qi: Some(be_value(qi@)),
            })
        },
{
    let rsa = Rsa::from_private_components(
        BigNum::from_slice(n)?,
        BigNum::from_slice(e)?,
        BigNum::from_slice(d)?,
        BigNum::from_slice(p)?,
        BigNum::from_slice(q)?,
        BigNum::from_slice(dp)?,
        BigNum::from_slice(dq)?,
        BigNum::from_slice(qi)?,
    )?;
    PKey::from_rsa(rsa)
}

/// `BigNum::from_slice` on each number, `RsaPrivateKeyBuilder::new` and
/// `build`, then `PKey::from_rsa`: a handle on an RSA key with the modulus and
/// the two exponents given, and no other number.
#[verifier::external_body]
pub(crate) fn private_key_from_exponents(n: &[u8], e: &[u8], d: &[u8]) -> (r: Result<
    PKey<Private>,
    ErrorStack,
>)
    requires
        n@.len() <= MAX_INPUT_LEN,
        e@.len() <= MAX_INPUT_LEN,
        d@.len() <= MAX_INPUT_LEN,
    ensures
        r matches Ok(key) ==> {
            &&& private_key_is_rsa(key)
            &&& private_key_modulus(key) == be_value(n@)
            &&& private_key_exponent(key) == be_value(e@)
            &&& private_key_secrets(key) == (RsaSecretNumbers {
                d: be_value(d@),
                p: None,
                q: None,
                dp: None,
                dq: None,
                qi: None,
            })
        },
{
    let builder = RsaPrivateKeyBuilder::new(
        BigNum::from_slice(n)?,
        BigNum::from_slice(e)?,
        BigNum::from_slice(d)?,
    )?;
    PKey::from_rsa(builder.build())
}

/// `PKey::clone`: another handle on the same key.
#[verifier::external_body]
pub(crate) fn clone_private_key(key: &PKey<Private>) -> (r: PKey<Private>)
    ensures
        r == *key,
{
    key.clone()
}

/// `PKeyRef::id`, compared with `Id::RSA`: whether the key is of the RSA kind.
#[verifier::external_body]
pub(crate) fn private_is_rsa(key: &PKey<Private>) -> (r: bool)
    ensures
        r == private_key_is_rsa(*key),
{
    key.id() == Id::RSA
}

/// `PKeyRef::bits`: the size of the key in bits, which for an RSA key is the
/// bit length of its modulus.
#[verifier::external_body]
pub(crate) fn private_bits(key: &PKey<Private>) -> (r: u32)
    ensures
        r == private_key_bits(*key),
        private_key_is_rsa(*key) ==> r == bit_length(private_key_modulus(*key)),
{
    key.bits()
}

/// `PKeyRef::rsa`, then `RsaRef::check_key`: whether the numbers of the key
/// are consistent. The answer depends on the key alone: `Ok(true)` comes back
/// for a consistent key and for no other. An error comes back where the key
/// holds no RSA numbers or lacks those that the check needs.
#[verifier::external_body]
pub(crate) fn check_private_key(key: &PKey<Private>) -> (r: Result<bool, ErrorStack>)
    ensures
        r matches Ok(consistent) ==> consistent == private_key_consistent(*key),
        r is Err ==> !private_key_consistent(*key),
{
    key.rsa()?.check_key()
}

/// `PKeyRef::rsa`, `RsaRef::n`, then `BigNumRef::to_vec`: the modulus as the
/// shortest big-endian byte string.
#[verifier::external_body]
pub(crate) fn private_modulus(key: &PKey<Private>) -> (r: Result<Vec<u8>, ErrorStack>)
    ensures
        r matches Ok(bytes) ==> bytes@ == be_bytes(private_key_modulus(*key)),
{
    Ok(key.rsa()?.n().to_vec())
}

/// `PKeyRef::rsa`, `RsaRef::e`, then `BigNumRef::to_vec`: the public exponent
/// as the shortest big-endian byte string.
#[verifier::external_body]
pub(crate) fn private_exponent(key: &PKey<Private>) -> (r: Result<Vec<u8>, ErrorStack>)
    ensures
        r matches Ok(bytes) ==> bytes@ == be_bytes(private_key_exponent(*key)),
{
    Ok(key.rsa()?.e().to_vec())
}

/// `PKeyRef::rsa`, then `RsaRef::d`, `p`, `q`, `dmp1`, `dmq1` and `iqmp`, each
/// with `BigNumRef::to_vec`: the secret numbers that the handle holds, each as
/// the shortest big-endian byte string.
#[verifier::external_body]
pub(crate) fn private_secrets(key: &PKey<Private>) -> (r: Result<RsaSecrets, ErrorStack>)
    ensures
        r matches Ok(secrets) ==> secrets@ == private_key_secrets(*key).written(),
{
    let rsa = key.rsa()?;
    Ok(
        RsaSecrets {
            d: rsa.d().to_vec(),
            p: rsa.p().map(|p| p.to_vec()),
            q: rsa.q().map(|q| q.to_vec()),
            dp: rsa.dmp1().map(|dp| dp.to_vec()),
            dq: rsa.dmq1().map(|dq| dq.to_vec()),
            qi: rsa.iqmp().map(|qi| qi.to_vec()),
        },
    )
}

/// `PKeyRef::private_key_to_pem_pkcs8`: the key as an unencrypted PKCS#8 PEM
/// block. Reading the block of an RSA key gives the key back.
#[verifier::external_body]
pub(crate) fn private_pkcs8_pem(key: &PKey<Private>) -> (r: Result<Vec<u8>, ErrorStack>)
    ensures
        r matches Ok(pem) ==> {
            &&& pem@ == private_key_pkcs8_pem(*key)
            &&& private_key_is_rsa(*key) ==> pem_private_key(pem@) == Some(*key)
        },
{
    key.private_key_to_pem_pkcs8()
}

/// `PKeyRef::public_key_to_pem`: the public half as a SubjectPublicKeyInfo PEM
/// block, whose header is `BEGIN PUBLIC KEY`. Reading the block of an RSA key
/// gives its public half.
#[verifier::external_body]
pub(crate) fn private_spki_pem(key: &PKey<Private>) -> (r: Result<Vec<u8>, ErrorStack>)
    ensures
        r matches Ok(pem) ==> {
            &&& pem@ == private_key_spki_pem(*key)
            &&& !is_pkcs1_pem(pem@)
            &&& private_key_is_rsa(*key) ==> (pem_public_key(pem@) matches Some(public)
                && is_public_half(public, *key))
        },
{
    key.public_key_to_pem()
}

/// `PKeyRef::rsa`, then `RsaRef::public_key_to_pem_pkcs1`: the public half as
/// a PKCS#1 PEM block, whose header is `BEGIN RSA PUBLIC KEY`. Reading the
/// block of an RSA key gives its public half.
#[verifier::external_body]
pub(crate) fn private_pkcs1_pem(key: &PKey<Private>) -> (r: Result<Vec<u8>, ErrorStack>)
    ensures
        r matches Ok(pem) ==> {
            &&& pem@ == private_key_pkcs1_pem(*key)
            &&& is_pkcs1_pem(pem@)
            &&& private_key_is_rsa(*key) ==> (pkcs1_pem_public_key(pem@) matches Some(public)
                && is_public_half(public, *key))
        },
{
    key.rsa()?.public_key_to_pem_pkcs1()
}

/// `PKeyRef::public_eq`: whether the public halves of two keys are equal.
#[verifier::external_body]
pub(crate) fn private_public_eq(a: &PKey<Private>, b: &PKey<Private>) -> (r: bool)
    ensures
        r == same_public_key(*a, *b),
{
    a.public_eq(b)
}

/// `Signer::new`, `update` and `sign_to_vec` with the padding left as it is:
/// a signature of the message. For an RSA key the padding is
/// RSASSA-PKCS1-v1_5, which uses no randomness, so the signature is the same
/// each time; and if the numbers of the key are consistent, a `Verifier` with
/// the same digest and padding accepts it under the key's modulus and
/// exponent.
#[verifier::external_body]
pub(crate) fn sign_pkcs1(key: &PKey<Private>, digest: DigestKind, message: &[u8]) -> (r: Result<
    Vec<u8>,
    ErrorStack,
>)
    ensures
        r matches Ok(signature) ==> (private_key_is_rsa(*key) ==> {
            &&& signature@ == pkcs1_signature(*key, digest, message@)
            &&& private_key_consistent(*key) ==> rsa_accepts(
                private_key_modulus(*key),
                private_key_exponent(*key),
                digest,
                false,
                message@,
                signature@,
            )
        }),
{
    let md = match digest {
        DigestKind::Sha256 => MessageDigest::sha256(),
        DigestKind::Sha384 => MessageDigest::sha384(),
        DigestKind::Sha512 => MessageDigest::sha512(),
    };
    let mut signer = Signer::new(md, key)?;
    signer.update(message)?;
    signer.sign_to_vec()
}

/// `Signer::new`, `set_rsa_padding` to RSASSA-PSS, `set_rsa_pss_saltlen` to
/// the digest's length, `update` and `sign_to_vec`: a signature of the
/// message. The salt is random, so the bytes differ from call to call. If
/// the key is an RSA key whose numbers are consistent, a `Verifier` with the
/// same digest, padding and salt length accepts them under the key's modulus
/// and exponent.
#[verifier::external_body]
pub(crate) fn sign_pss(key: &PKey<Private>, digest: DigestKind, message: &[u8]) -> (r: Result<
    Vec<u8>,
    ErrorStack,
>)
    ensures
        r matches Ok(signature) ==> (private_key_is_rsa(*key) && private_key_consistent(*key)
            ==> rsa_accepts(
            private_key_modulus(*key),
            private_key_exponent(*key),
            digest,
            true,
            message@,
            signature@,
        )),
{
    let md = match digest {
        DigestKind::Sha256 => MessageDigest::sha256(),
        DigestKind::Sha384 => MessageDigest::sha384(),
        DigestKind::Sha512 => MessageDigest::sha512(),
    };
    let mut signer = Signer::new(md, key)?;
    signer.set_rsa_padding(Padding::PKCS1_PSS)?;
    signer.set_rsa_pss_saltlen(RsaPssSaltlen::DIGEST_LENGTH)?;
    signer.update(message)?;
    signer.sign_to_vec()
}

/// `Verifier::new`, then `verify_oneshot`, with the padding left as it is:
/// whether the signature is accepted for the message. For a key of the RSA
/// kind the padding is RSASSA-PKCS1-v1_5, and the answer depends on the key
/// through its modulus and exponent alone.
#[verifier::external_body]
pub(crate) fn private_verify_pkcs1(
    key: &PKey<Private>,
    digest: DigestKind,
    message: &[u8],
    signature: &[u8],
) -> (r: Result<bool, ErrorStack>)
    ensures
        r matches Ok(accepted) ==> (private_key_is_rsa(*key) ==> accepted == rsa_accepts(
            private_key_modulus(*key),
            private_key_exponent(*key),
            digest,
            false,
            message@,
            signature@,
        )),
{
    let md = match digest {
        DigestKind::Sha256 => MessageDigest::sha256(),
        DigestKind::Sha384 => MessageDigest::sha384(),
        DigestKind::Sha512 => MessageDigest::sha512(),
    };
    let mut verifier = Verifier::new(md, key)?;
    verifier.verify_oneshot(signature, message)
}

/// `Verifier::new`, `set_rsa_padding` to RSASSA-PSS, `set_rsa_pss_saltlen` to
/// the digest's length, then `verify_oneshot`: whether the signature is
/// accepted for the message. For a key of the RSA kind the answer depends on
/// the key through its modulus and exponent alone.
#[verifier::external_body]
pub(crate) fn private_verify_pss(
    key: &PKey<Private>,
    digest: DigestKind,
    message: &[u8],
    signature: &[u8],
) -> (r: Result<bool, ErrorStack>)
    ensures
        r matches Ok(accepted) ==> (private_key_is_rsa(*key) ==> accepted == rsa_accepts(
            private_key_modulus(*key),
            private_key_exponent(*key),
            digest,
            true,
            message@,
            signature@,
        )),
{
    let md = match digest {
        DigestKind::Sha256 => MessageDigest::sha256(),
        DigestKind::Sha384 => MessageDigest::sha384(),
        DigestKind::Sha512 => MessageDigest::sha512(),
    };
    let mut verifier = Verifier::new(md, key)?;
    verifier.set_rsa_padding(Padding::PKCS1_PSS)?;
    verifier.set_rsa_pss_saltlen(RsaPssSaltlen::DIGEST_LENGTH)?;
    verifier.verify_oneshot(signature, message)
}

// Public handles.

/// `PKey::public_key_from_pem`: the public key of whatever kind that the
/// SubjectPublicKeyInfo PEM block holds.
#[verifier::external_body]
pub(crate) fn public_key_from_pem(pem: &[u8]) -> (r: Result<PKey<Public>, ErrorStack>)
    requires
        pem@.len() <= MAX_INPUT_LEN,
    ensures
        r matches Ok(key) ==> pem_public_key(pem@) == Some(key),
{
    PKey::public_key_from_pem(pem)
}

/// `Rsa::public_key_from_pem_pkcs1`, then `PKey::from_rsa`: the RSA public key
/// that the PKCS#1 PEM block holds.
#[verifier::external_body]
pub(crate) fn public_key_from_pkcs1_pem(pem: &[u8]) -> (r: Result<PKey<Public>, ErrorStack>)
    requires
        pem@.len() <= MAX_INPUT_LEN,
    ensures
        r matches Ok(key) ==> pkcs1_pem_public_key(pem@) == Some(key),
{
    PKey::from_rsa(Rsa::public_key_from_pem_pkcs1(pem)?)
}

/// `BigNum::from_slice` on each number, `Rsa::from_public_components`, then
/// `PKey::from_rsa`: a handle on an RSA key with the modulus and exponent
/// given.
#[verifier::external_body]
pub(crate) fn public_key_from_numbers(n: &[u8], e: &[u8]) -> (r: Result<PKey<Public>, ErrorStack>)
    requires
        n@.len() <= MAX_INPUT_LEN,
        e@.len() <= MAX_INPUT_LEN,
    ensures
        r matches Ok(key) ==> {
            &&& public_key_is_rsa(key)
            &&& public_key_modulus(key) == be_value(n@)
            &&& public_key_exponent(key) == be_value(e@)
        },
{
    let rsa = Rsa::from_public_components(BigNum::from_slice(n)?, BigNum::from_slice(e)?)?;
    PKey::from_rsa(rsa)
}

/// `PKeyRef::id`, compared with `Id::RSA`: whether the key is of the RSA kind.
#[verifier::external_body]
pub(crate) fn public_is_rsa(key: &PKey<Public>) -> (r: bool)
    ensures
        r == public_key_is_rsa(*key),
{
    key.id() == Id::RSA
}

/// `PKeyRef::bits`: the size of the key in bits, which for an RSA key is the
/// bit length of its modulus.
#[verifier::external_body]
pub(crate) fn public_bits(key: &PKey<Public>) -> (r: u32)
    ensures
        r == public_key_bits(*key),
        public_key_is_rsa(*key) ==> r == bit_length(public_key_modulus(*key)),
{
    key.bits()
}

/// `PKeyRef::rsa`, `RsaRef::n`, then `BigNumRef::to_vec`: the modulus as the
/// shortest big-endian byte string.
#[verifier::external_body]
pub(crate) fn public_modulus(key: &PKey<Public>) -> (r: Result<Vec<u8>, ErrorStack>)
    ensures
        r matches Ok(bytes) ==> bytes@ == be_bytes(public_key_modulus(*key)),
{
    Ok(key.rsa()?.n().to_vec())
}

/// `PKeyRef::rsa`, `RsaRef::e`, then `BigNumRef::to_vec`: the public exponent
/// as the shortest big-endian byte string.
#[verifier::external_body]
pub(crate) fn public_exponent(key: &PKey<Public>) -> (r: Result<Vec<u8>, ErrorStack>)
    ensures
        r matches Ok(bytes) ==> bytes@ == be_bytes(public_key_exponent(*key)),
{
    Ok(key.rsa()?.e().to_vec())
}

/// `PKeyRef::public_key_to_pem`: the key as a SubjectPublicKeyInfo PEM block,
/// whose header is `BEGIN PUBLIC KEY`. Reading the block of an RSA key gives
/// the key back.
#[verifier::external_body]
pub(crate) fn public_spki_pem(key: &PKey<Public>) -> (r: Result<Vec<u8>, ErrorStack>)
    ensures
        r matches Ok(pem) ==> {
            &&& pem@ == public_key_spki_pem(*key)
            &&& !is_pkcs1_pem(pem@)
            &&& public_key_is_rsa(*key) ==> pem_public_key(pem@) == Some(*key)
        },
{
    key.public_key_to_pem()
}

/// `PKeyRef::rsa`, then `RsaRef::public_key_to_pem_pkcs1`: the key as a
/// PKCS#1 PEM block, whose header is `BEGIN RSA PUBLIC KEY`. Reading the
/// block of an RSA key gives the key back.
#[verifier::external_body]
pub(crate) fn public_pkcs1_pem(key: &PKey<Public>) -> (r: Result<Vec<u8>, ErrorStack>)
    ensures
        r matches Ok(pem) ==> {
            &&& pem@ == public_key_pkcs1_pem(*key)
            &&& is_pkcs1_pem(pem@)
            &&& public_key_is_rsa(*key) ==> pkcs1_pem_public_key(pem@) == Some(*key)
        },
{
    key.rsa()?.public_key_to_pem_pkcs1()
}

/// `Verifier::new`, then `verify_oneshot`, with the padding left at
/// RSASSA-PKCS1-v1_5: whether the signature is accepted for the message. For
/// a key of the RSA kind the answer depends on the key through its modulus
/// and exponent alone.
#[verifier::external_body]
pub(crate) fn public_verify_pkcs1(
    key: &PKey<Public>,
    digest: DigestKind,
    message: &[u8],
    signature: &[u8],
) -> (r: Result<bool, ErrorStack>)
    ensures
        r matches Ok(accepted) ==> (public_key_is_rsa(*key) ==> accepted == rsa_accepts(
            public_key_modulus(*key),
            public_key_exponent(*key),
            digest,
            false,
            message@,
            signature@,
        )),
{
    let md = match digest {
        DigestKind::Sha256 => MessageDigest::sha256(),
        DigestKind::Sha384 => MessageDigest::sha384(),
        DigestKind::Sha512 => MessageDigest::sha512(),
    };
    let mut verifier = Verifier::new(md, key)?;
    verifier.verify_oneshot(signature, message)
}

/// `Verifier::new`, `set_rsa_padding` to RSASSA-PSS, `set_rsa_pss_saltlen` to
/// the digest's length, then `verify_oneshot`: whether the signature is
/// accepted for the message. For a key of the RSA kind the answer depends on
/// the key through its modulus and exponent alone.
#[verifier::external_body]
pub(crate) fn public_verify_pss(
    key: &PKey<Public>,
    digest: DigestKind,
    message: &[u8],
    signature: &[u8],
) -> (r: Result<bool, ErrorStack>)
    ensures
        r matches Ok(accepted) ==> (public_key_is_rsa(*key) ==> accepted == rsa_accepts(
            public_key_modulus(*key),
            public_key_exponent(*key),
            digest,
            true,
            message@,
            signature@,
        )),
{
    let md = match digest {
        DigestKind::Sha256 => MessageDigest::sha256(),
        DigestKind::Sha384 => MessageDigest::sha384(),
        DigestKind::Sha512 => MessageDigest::sha512(),
    };
    let mut verifier = Verifier::new(md, key)?;
    verifier.set_rsa_padding(Padding::PKCS1_PSS)?;
    verifier.set_rsa_pss_saltlen(RsaPssSaltlen::DIGEST_LENGTH)?;
    verifier.verify_oneshot(signature, message)
}

} // verus!
