//! Base64 with the URL-safe alphabet and without padding, the form in which a
//! key's numbers stand in its JSON record.

use crate::error::Error;
use crate::views::result_view;
use vstd::prelude::*;
use vstd::string::StringSliceAdditionalSpecFns;
use vstd::utf8::{encode_utf8, is_ascii_chars, is_ascii_chars_encode_utf8};

verus! {

/// The base64url text, without padding, of a byte string.
pub uninterp spec fn base64url_text(bytes: Seq<u8>) -> Seq<char>;

/// The byte string that a text stands for as unpadded base64url, or `None`
/// where the text is not base64url. Bits left over in the last character are
/// ignored.
pub uninterp spec fn base64url_bytes(text: Seq<char>) -> Option<Seq<u8>>;

/// The sixty-four characters of the URL-safe alphabet. The padding character
/// `=` is not among them.
pub open spec fn is_base64url_char(c: char) -> bool {
    ||| 'A' <= c <= 'Z'
    ||| 'a' <= c <= 'z'
    ||| '0' <= c <= '9'
    ||| c == '-'
    ||| c == '_'
}

/// Whether a text holds characters of the URL-safe alphabet only, and so no
/// padding.
pub open spec fn is_base64url_text(text: Seq<char>) -> bool {
    forall|i: int| 0 <= i < text.len() ==> is_base64url_char(#[trigger] text[i])
}

/// The number of characters in the unpadded text of `len` bytes: four for
/// every three bytes, and two or three for the one or two bytes left over.
pub open spec fn text_len(len: nat) -> nat {
    len / 3 * 4 + if len % 3 == 0 {
        0nat
    } else {
        len % 3 + 1
    }
}

/// Whether a byte string of this length is short enough to be written.
pub open spec fn encodable_len(len: nat) -> bool {
    len / 3 <= (usize::MAX - 6) / 4
}

/// Whether a text of this many bytes is short enough to be read.
pub open spec fn decodable_len(len: nat) -> bool {
    len <= usize::MAX - 3
}

/// `base64::encode_config` with the URL-safe alphabet and no padding: the
/// base64url text of the bytes. It has the length that the crate computes for
/// it, holds characters of the alphabet only, and decodes to the same bytes.
#[verifier::external_body]
fn encode_unpadded(bytes: &[u8]) -> (r: String)
    requires
        encodable_len(bytes@.len()),
    ensures
        r@ == base64url_text(bytes@),
        r@.len() == text_len(bytes@.len()),
        is_base64url_text(r@),
        base64url_bytes(r@) == Some(bytes@),
{
    base64::encode_config(bytes, base64::URL_SAFE_NO_PAD.decode_allow_trailing_bits(true))
}

/// `base64::decode_config` with the URL-safe alphabet, no padding, and bits
/// left over in the last character ignored: the bytes that the text stands
/// for, or nothing where it is not base64url.
#[verifier::external_body]
fn decode_unpadded(text: &str) -> (r: Option<Vec<u8>>)
    requires
        decodable_len(text.spec_bytes().len()),
    ensures
        match r {
            Some(bytes) => base64url_bytes(text@) == Some(bytes@),
            None => base64url_bytes(text@) is None,
        },
{
    base64::decode_config(text, base64::URL_SAFE_NO_PAD.decode_allow_trailing_bits(true)).ok()
}

/// What `encode` returns for a byte string.
pub open spec fn encoded(bytes: Seq<u8>) -> Result<Seq<char>, Error> {
    if encodable_len(bytes.len()) {
        Ok(base64url_text(bytes))
    } else {
        Err(Error::EncodingError)
    }
}

/// What `decode` returns for a text.
pub open spec fn decoded(text: Seq<char>) -> Result<Seq<u8>, Error> {
    if !decodable_len(encode_utf8(text).len()) {
        Err(Error::EncodingError)
    } else {
        match base64url_bytes(text) {
            Some(bytes) => Ok(bytes),
            None => Err(Error::EncodingError),
        }
    }
}

/// Writes bytes as base64url without padding. The text has no character
/// outside the alphabet, so no padding, and reads back as the same bytes. The
/// only byte strings refused are those too long for a text.
pub fn encode(bytes: &[u8]) -> (r: Result<String, Error>)
    ensures
        result_view(r) == encoded(bytes@),
        r matches Ok(text) ==> {
            &&& text@.len() == text_len(bytes@.len())
            &&& is_base64url_text(text@)
            &&& decoded(text@) == Ok::<Seq<u8>, Error>(bytes@)
        },
{
    if bytes.len() / 3 > (usize::MAX - 6) / 4 {
        return Err(Error::EncodingError);
    }
    let text = encode_unpadded(bytes);
    proof {
        assert(is_ascii_chars(text@));
        is_ascii_chars_encode_utf8(text@);
    }
    Ok(text)
}

/// Reads base64url without padding: the bytes that the text stands for, or
/// an error where it is not base64url.
pub fn decode(text: &str) -> (r: Result<Vec<u8>, Error>)
    ensures
        result_view(r) == decoded(text@),
{
    if text.as_bytes().len() > usize::MAX - 3 {
        return Err(Error::EncodingError);
    }
    match decode_unpadded(text) {
        Some(bytes) => Ok(bytes),
        None => Err(Error::EncodingError),
    }
}

} // verus!
