use jws_keys::base64url::{decode, encode};
use jws_keys::Error;

#[test]
fn encodes_without_padding() {
    assert_eq!(encode(b""), Ok(String::new()));
    assert_eq!(encode(b"f"), Ok("Zg".to_string()));
    assert_eq!(encode(b"fo"), Ok("Zm8".to_string()));
    assert_eq!(encode(b"foo"), Ok("Zm9v".to_string()));
    assert_eq!(encode(b"foob"), Ok("Zm9vYg".to_string()));
    assert_eq!(encode(b"fooba"), Ok("Zm9vYmE".to_string()));
    assert_eq!(encode(b"foobar"), Ok("Zm9vYmFy".to_string()));
}

#[test]
fn encodes_with_the_url_safe_alphabet() {
    assert_eq!(encode(&[0xfb, 0xff]), Ok("-_8".to_string()));
    assert_eq!(encode(&[0xff, 0xef, 0xbe]), Ok("_---".to_string()));
    assert_eq!(encode(&[1, 0, 1]), Ok("AQAB".to_string()));
}

#[test]
fn encoded_length_and_alphabet() {
    for len in 0..40usize {
        let bytes: Vec<u8> = (0..len).map(|i| (i * 37 + 11) as u8).collect();
        let text = encode(&bytes).unwrap();
        let expected = len / 3 * 4 + if len % 3 == 0 { 0 } else { len % 3 + 1 };
        assert_eq!(text.len(), expected);
        assert!(text
            .chars()
            .all(|c| c.is_ascii_alphanumeric() || c == '-' || c == '_'));
        assert_eq!(decode(&text), Ok(bytes));
    }
}

#[test]
fn decodes() {
    assert_eq!(decode(""), Ok(Vec::new()));
    assert_eq!(decode("AQAB"), Ok(vec![1, 0, 1]));
    assert_eq!(decode("Zm9vYmE"), Ok(b"fooba".to_vec()));
    assert_eq!(decode("-_8"), Ok(vec![0xfb, 0xff]));
}

#[test]
fn decoding_ignores_left_over_bits() {
    assert_eq!(decode("Zg"), Ok(b"f".to_vec()));
    assert_eq!(decode("Zh"), Ok(b"f".to_vec()));
}

#[test]
fn decoding_refuses_what_is_not_base64url() {
    assert_eq!(decode("!!!!"), Err(Error::EncodingError));
    assert_eq!(decode("AQ AB"), Err(Error::EncodingError));
    assert_eq!(decode("+/8"), Err(Error::EncodingError));
    assert_eq!(decode("A"), Err(Error::EncodingError));
    assert_eq!(decode("caf\u{e9}"), Err(Error::EncodingError));
}
