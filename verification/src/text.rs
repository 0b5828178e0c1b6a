//! Comparisons and searches on bytes and text.

use crate::error::Error;
use crate::views::{opt_view, result_view};
use vstd::prelude::*;
use vstd::string::StringSliceAdditionalSpecFns;
use vstd::utf8::{
    decode_utf8, decode_utf8_encode_utf8, encode_utf8, encode_utf8_decode_utf8, valid_utf8,
};

verus! {

/// Whether `needle` stands in `haystack` at offset `at`.
pub open spec fn occurs_at(haystack: Seq<u8>, needle: Seq<u8>, at: int) -> bool {
    &&& 0 <= at
    &&& at + needle.len() <= haystack.len()
    &&& haystack.subrange(at, at + needle.len()) == needle
}

/// Whether `needle` stands somewhere in `haystack`.
pub open spec fn occurs_in(haystack: Seq<u8>, needle: Seq<u8>) -> bool {
    exists|at: int| occurs_at(haystack, needle, at)
}

/// Compares two byte strings.
pub fn bytes_eq(a: &[u8], b: &[u8]) -> (r: bool)
    ensures
        r == (a@ == b@),
{
    if a.len() != b.len() {
        return false;
    }
    let mut i: usize = 0;
    while i < a.len()
        invariant
            a@.len() == b@.len(),
            i <= a@.len(),
            a@.subrange(0, i as int) == b@.subrange(0, i as int),
        decreases a@.len() - i,
    {
        if a[i] != b[i] {
            assert(a@[i as int] != b@[i as int]);
            return false;
        }
        assert(a@.subrange(0, i + 1) == a@.subrange(0, i as int).push(a@[i as int]));
        assert(b@.subrange(0, i + 1) == b@.subrange(0, i as int).push(b@[i as int]));
        i += 1;
    }
    assert(a@ == a@.subrange(0, a@.len() as int));
    assert(b@ == b@.subrange(0, b@.len() as int));
    true
}

/// Compares two texts, character by character. No case folding, no
/// normalisation: two texts are equal when they hold the same characters.
pub fn str_eq(a: &str, b: &str) -> (r: bool)
    ensures
        r == (a@ == b@),
{
    let r = bytes_eq(a.as_bytes(), b.as_bytes());
    proof {
        encode_utf8_decode_utf8(a@);
        encode_utf8_decode_utf8(b@);
        assert(a.spec_bytes() == encode_utf8(a@));
        assert(b.spec_bytes() == encode_utf8(b@));
    }
    r
}

/// Whether `needle` occurs in `haystack`. The empty needle occurs everywhere.
pub fn contains_bytes(haystack: &[u8], needle: &[u8]) -> (r: bool)
    ensures
        r == occurs_in(haystack@, needle@),
{
    if needle.len() > haystack.len() {
        assert(forall|at: int| !occurs_at(haystack@, needle@, at));
        return false;
    }
    let last: usize = haystack.len() - needle.len();
    let mut at: usize = 0;
    loop
        invariant
            last == haystack@.len() - needle@.len(),
            at <= last,
            forall|k: int| 0 <= k < at ==> !occurs_at(haystack@, needle@, k),
        decreases last - at,
    {
        if matches_at(haystack, needle, at) {
            assert(occurs_at(haystack@, needle@, at as int));
            return true;
        }
        if at == last {
            assert(forall|k: int| !occurs_at(haystack@, needle@, k));
            return false;
        }
        at += 1;
    }
}

/// Whether `needle` stands in `haystack` at offset `at`.
fn matches_at(haystack: &[u8], needle: &[u8], at: usize) -> (r: bool)
    requires
        at + needle@.len() <= haystack@.len(),
    ensures
        r == occurs_at(haystack@, needle@, at as int),
{
    let len: usize = haystack.len();
    let mut i: usize = 0;
    while i < needle.len()
        invariant
            at + needle@.len() <= haystack@.len() == len,
            i <= needle@.len(),
            haystack@.subrange(at as int, at + i) == needle@.subrange(0, i as int),
        decreases needle@.len() - i,
    {
        if haystack[at + i] != needle[i] {
            assert(haystack@.subrange(at as int, at + needle@.len())[i as int]
                != needle@[i as int]);
            return false;
        }
        assert(haystack@.subrange(at as int, at + i + 1) == haystack@.subrange(
            at as int,
            at + i,
        ).push(haystack@[at + i]));
        assert(needle@.subrange(0, i + 1) == needle@.subrange(0, i as int).push(needle@[i as int]));
        i += 1;
    }
    assert(needle@ == needle@.subrange(0, needle@.len() as int));
    true
}

/// `core::str::from_utf8`: the bytes as text, where they are valid UTF-8.
#[verifier::external_body]
fn utf8_text(bytes: &[u8]) -> (r: Option<&str>)
    ensures
        r is Some == valid_utf8(bytes@),
        r matches Some(text) ==> text@ == decode_utf8(bytes@),
{
    core::str::from_utf8(bytes).ok()
}

/// Whether the bytes are valid UTF-8.
pub fn is_utf8(bytes: &[u8]) -> (r: bool)
    ensures
        r == valid_utf8(bytes@),
{
    utf8_text(bytes).is_some()
}

/// What `pem_text` returns: the text of what the primitive wrote, an
/// encoding error where that is not UTF-8, and a key error where the
/// primitive wrote nothing.
pub open spec fn pem_text_of(pem: Option<Seq<u8>>) -> Result<Seq<char>, Error> {
    match pem {
        None => Err(Error::UnsupportedOrInvalidKey),
        Some(bytes) => if valid_utf8(bytes) {
            Ok(decode_utf8(bytes))
        } else {
            Err(Error::EncodingError)
        },
    }
}

/// Whether `r` is what an export gives for a key whose PEM block is `pem`:
/// the text of the block, whose bytes are the block again; an encoding error
/// where the block is not UTF-8; or a key error where the primitive could not
/// write the block.
pub open spec fn is_pem_export(pem: Seq<u8>, r: Result<String, Error>) -> bool {
    match r {
        Ok(text) => valid_utf8(pem) && text@ == decode_utf8(pem) && encode_utf8(text@) == pem,
        Err(e) => e == Error::UnsupportedOrInvalidKey || (e == Error::EncodingError && !valid_utf8(
            pem,
        )),
    }
}

/// Turns what a PEM export wrote into text. The bytes of the text are the
/// bytes that were written.
pub fn pem_text(pem: Option<Vec<u8>>) -> (r: Result<String, Error>)
    ensures
        result_view(r) == pem_text_of(opt_view(pem)),
        r matches Ok(text) ==> pem matches Some(bytes) && encode_utf8(text@) == bytes@,
{
    match pem {
        None => Err(Error::UnsupportedOrInvalidKey),
        Some(bytes) => match utf8_text(bytes.as_slice()) {
            Some(text) => {
                proof {
                    decode_utf8_encode_utf8(bytes@);
                }
                Ok(text.to_owned())
            },
            None => Err(Error::EncodingError),
        },
    }
}

/// The marker by which a PKCS#1 PEM block is told from a
/// SubjectPublicKeyInfo block: the bytes of the text `BEGIN RSA`.
pub open spec fn pkcs1_marker() -> Seq<u8> {
    "BEGIN RSA".spec_bytes()
}

/// Whether a PEM block is read as PKCS#1: it is text, and the marker
/// `BEGIN RSA` stands somewhere in it.
pub open spec fn is_pkcs1_pem(pem: Seq<u8>) -> bool {
    valid_utf8(pem) && occurs_in(pem, pkcs1_marker())
}

/// Sniffs a PEM block for the marker of the PKCS#1 form.
pub fn sniff_pkcs1(pem: &[u8]) -> (r: bool)
    ensures
        r == is_pkcs1_pem(pem@),
{
    is_utf8(pem) && contains_bytes(pem, "BEGIN RSA".as_bytes())
}

} // verus!
