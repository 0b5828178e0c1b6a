use jws_keys::text::{bytes_eq, contains_bytes, is_utf8, pem_text, sniff_pkcs1, str_eq};
use jws_keys::Error;

#[test]
fn bytes_are_compared_in_full() {
    assert!(bytes_eq(b"", b""));
    assert!(bytes_eq(b"abc", b"abc"));
    assert!(!bytes_eq(b"abc", b"abd"));
    assert!(!bytes_eq(b"abc", b"ab"));
    assert!(!bytes_eq(b"ab", b"abc"));
    assert!(!bytes_eq(b"xbc", b"abc"));
}

#[test]
fn texts_are_compared_exactly() {
    assert!(str_eq("", ""));
    assert!(str_eq("RS256", "RS256"));
    assert!(!str_eq("RS256", "rs256"));
    assert!(!str_eq("RS256", "RS256 "));
    assert!(str_eq("caf\u{e9}", "caf\u{e9}"));
    assert!(!str_eq("caf\u{e9}", "cafe\u{301}"));
}

#[test]
fn search_finds_a_needle_anywhere() {
    assert!(contains_bytes(b"hello world", b"hello"));
    assert!(contains_bytes(b"hello world", b"world"));
    assert!(contains_bytes(b"hello world", b"o w"));
    assert!(contains_bytes(b"hello world", b""));
    assert!(contains_bytes(b"", b""));
    assert!(contains_bytes(b"aab", b"ab"));
    assert!(!contains_bytes(b"hello world", b"worlds"));
    assert!(!contains_bytes(b"hello", b"hello world"));
    assert!(!contains_bytes(b"", b"a"));
    assert!(!contains_bytes(b"abab", b"bb"));
}

#[test]
fn utf8_is_recognised() {
    assert!(is_utf8(b""));
    assert!(is_utf8(b"plain"));
    assert!(is_utf8("caf\u{e9}".as_bytes()));
    assert!(!is_utf8(&[0xff]));
    assert!(!is_utf8(&[0xc3]));
    assert!(!is_utf8(&[b'a', 0x80, b'b']));
}

#[test]
fn pkcs1_blocks_are_sniffed_by_their_marker() {
    assert!(sniff_pkcs1(b"-----BEGIN RSA PUBLIC KEY-----\nAAAA\n-----END RSA PUBLIC KEY-----\n"));
    assert!(sniff_pkcs1(b"BEGIN RSA"));
    assert!(!sniff_pkcs1(b"-----BEGIN PUBLIC KEY-----\nAAAA\n-----END PUBLIC KEY-----\n"));
    assert!(!sniff_pkcs1(b"begin rsa"));
    assert!(!sniff_pkcs1(b"BEGIN  RSA"));
    assert!(!sniff_pkcs1(b""));
    // A block that is not text is never read as PKCS#1.
    assert!(!sniff_pkcs1(b"-----BEGIN RSA PUBLIC KEY-----\n\xff\n"));
}

#[test]
fn pem_text_reads_what_was_written() {
    assert_eq!(pem_text(Some(b"-----BEGIN X-----\n".to_vec())), Ok("-----BEGIN X-----\n".to_string()));
    assert_eq!(pem_text(Some(Vec::new())), Ok(String::new()));
    assert_eq!(pem_text(Some(vec![0xff, 0xfe])), Err(Error::EncodingError));
    assert_eq!(pem_text(None), Err(Error::UnsupportedOrInvalidKey));
}
