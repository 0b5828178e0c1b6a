use jws_keys::key::{
    private_key_admission, public_key_admission, size_admitted, verification_outcome,
    MIN_RSA_BITS,
};
use jws_keys::Error;

#[test]
fn the_floor_is_2048_bits() {
    assert_eq!(MIN_RSA_BITS, 2048);
    assert!(!size_admitted(0));
    assert!(!size_admitted(1024));
    assert!(!size_admitted(2047));
    assert!(size_admitted(2048));
    assert!(size_admitted(4096));
    assert!(size_admitted(u32::MAX));
}

#[test]
fn private_keys_must_be_rsa_large_and_consistent() {
    assert_eq!(private_key_admission(true, 2048, Some(true)), Ok(()));
    assert_eq!(private_key_admission(true, 4096, Some(true)), Ok(()));
    for (is_rsa, bits, consistent) in [
        (true, 2047, Some(true)),
        (true, 2048, Some(false)),
        (true, 2048, None),
        (true, 256, None),
        (false, 2048, Some(true)),
        (false, 4096, Some(true)),
        (false, 256, None),
    ] {
        assert_eq!(
            private_key_admission(is_rsa, bits, consistent),
            Err(Error::UnsupportedOrInvalidKey)
        );
    }
}

#[test]
fn public_keys_must_be_rsa_and_large() {
    assert_eq!(public_key_admission(true, 2048), Ok(()));
    assert_eq!(public_key_admission(true, 2047), Err(Error::UnsupportedOrInvalidKey));
    assert_eq!(public_key_admission(false, 2048), Err(Error::UnsupportedOrInvalidKey));
    assert_eq!(public_key_admission(false, 256), Err(Error::UnsupportedOrInvalidKey));
}

#[test]
fn every_failed_verification_looks_the_same() {
    assert_eq!(verification_outcome(Some(true)), Ok(()));
    assert_eq!(verification_outcome(Some(false)), Err(Error::VerificationFailed));
    assert_eq!(verification_outcome(None), Err(Error::VerificationFailed));
}
