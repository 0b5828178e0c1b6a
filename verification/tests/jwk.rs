use jws_keys::material::{RsaPrivateMaterial, RsaPublicMaterial, RsaSecrets};
use jws_keys::{AlgorithmBinding, Error, Jwk, RsaAlgorithm};

fn text(s: &str) -> Option<String> {
    Some(s.to_string())
}

fn public_record() -> Jwk {
    Jwk {
        kty: "RSA".to_string(),
        alg: text("PS256"),
        use_: text("sig"),
        n: text("AQID"),
        e: text("AQAB"),
        ..Jwk::default()
    }
}

fn private_record() -> Jwk {
    Jwk {
        d: text("BAUG"),
        p: text("Bw"),
        q: text("CA"),
        dp: text("CQ"),
        dq: text("Cg"),
        qi: text("Cw"),
        ..public_record()
    }
}

fn public_parts(m: RsaPublicMaterial) -> (Vec<u8>, Vec<u8>, Option<RsaAlgorithm>) {
    (m.n, m.e, m.algorithm)
}

#[test]
fn default_record_is_empty() {
    let jwk = Jwk::default();
    assert_eq!(jwk.kty, "");
    assert_eq!(jwk.alg, None);
    assert_eq!(jwk.use_, None);
    assert_eq!(jwk.n, None);
    assert_eq!(jwk.e, None);
    assert_eq!(jwk.d, None);
    assert_eq!(jwk.p, None);
    assert_eq!(jwk.q, None);
    assert_eq!(jwk.dp, None);
    assert_eq!(jwk.dq, None);
    assert_eq!(jwk.qi, None);
}

#[test]
fn public_record_of_a_pinned_key() {
    let jwk = Jwk::rsa_public(
        AlgorithmBinding::Pinned(RsaAlgorithm::PS256),
        &[1, 2, 3],
        &[1, 0, 1],
    )
    .unwrap();
    assert_eq!(jwk, public_record());
}

#[test]
fn public_record_of_a_permissive_key_names_no_algorithm() {
    let jwk = Jwk::rsa_public(AlgorithmBinding::Permissive, &[1, 2, 3], &[1, 0, 1]).unwrap();
    assert_eq!(jwk, Jwk { alg: None, ..public_record() });
}

#[test]
fn private_record_holds_every_number_the_key_has() {
    let secrets = RsaSecrets {
        d: vec![4, 5, 6],
        p: Some(vec![7]),
        q: Some(vec![8]),
        dp: Some(vec![9]),
        dq: Some(vec![10]),
        qi: Some(vec![11]),
    };
    let jwk = Jwk::rsa_private(
        AlgorithmBinding::Pinned(RsaAlgorithm::PS256),
        &[1, 2, 3],
        &[1, 0, 1],
        &secrets,
    )
    .unwrap();
    assert_eq!(jwk, private_record());

    let partial = RsaSecrets { d: vec![4, 5, 6], p: Some(vec![7]), q: None, dp: None, dq: None, qi: None };
    let jwk = Jwk::rsa_private(AlgorithmBinding::Permissive, &[1, 2, 3], &[1, 0, 1], &partial)
        .unwrap();
    assert_eq!(
        jwk,
        Jwk { alg: None, q: None, dp: None, dq: None, qi: None, ..private_record() }
    );
}

#[test]
fn public_material_is_read_back() {
    let m = public_record().verification_material().unwrap();
    assert_eq!(
        public_parts(m),
        (vec![1, 2, 3], vec![1, 0, 1], Some(RsaAlgorithm::PS256))
    );
    let m = Jwk { alg: None, ..public_record() }.verification_material().unwrap();
    assert_eq!(public_parts(m), (vec![1, 2, 3], vec![1, 0, 1], None));
    // Private fields do not matter to a verification key.
    let m = private_record().verification_material().unwrap();
    assert_eq!(
        public_parts(m),
        (vec![1, 2, 3], vec![1, 0, 1], Some(RsaAlgorithm::PS256))
    );
}

fn public_error(jwk: Jwk) -> Error {
    match jwk.verification_material() {
        Ok(_) => panic!("the record was taken"),
        Err(e) => e,
    }
}

fn private_error(jwk: Jwk) -> Error {
    match jwk.signing_material(RsaAlgorithm::RS256) {
        Ok(_) => panic!("the record was taken"),
        Err(e) => e,
    }
}

#[test]
fn public_material_refusals() {
    for kty in ["EC", "OKP", "rsa", "", "RSA "] {
        assert_eq!(
            public_error(Jwk { kty: kty.to_string(), ..public_record() }),
            Error::UnsupportedOrInvalidKey
        );
    }
    assert_eq!(public_error(Jwk { alg: text("ES256"), ..public_record() }), Error::UnknownAlgorithm);
    assert_eq!(public_error(Jwk { alg: text("ps256"), ..public_record() }), Error::UnknownAlgorithm);
    assert_eq!(public_error(Jwk { n: None, ..public_record() }), Error::UnsupportedOrInvalidKey);
    assert_eq!(public_error(Jwk { e: None, ..public_record() }), Error::UnsupportedOrInvalidKey);
    assert_eq!(public_error(Jwk { n: text("***"), ..public_record() }), Error::UnsupportedOrInvalidKey);
    assert_eq!(public_error(Jwk { e: text("A"), ..public_record() }), Error::UnsupportedOrInvalidKey);
    // The key type is looked at before the algorithm, the algorithm before the numbers.
    assert_eq!(
        public_error(Jwk { kty: "EC".to_string(), alg: text("ES256"), ..public_record() }),
        Error::UnsupportedOrInvalidKey
    );
    assert_eq!(
        public_error(Jwk { alg: text("ES256"), n: None, ..public_record() }),
        Error::UnknownAlgorithm
    );
}

fn private_parts(m: RsaPrivateMaterial) -> (RsaAlgorithm, bool, Vec<u8>, Vec<u8>, Vec<u8>, Option<[Vec<u8>; 5]>) {
    (
        m.algorithm,
        m.verify_any,
        m.n,
        m.e,
        m.d,
        m.crt.map(|c| [c.p, c.q, c.dp, c.dq, c.qi]),
    )
}

#[test]
fn private_material_is_read_back() {
    let m = private_record().signing_material(RsaAlgorithm::RS512).unwrap();
    assert_eq!(
        private_parts(m),
        (
            RsaAlgorithm::PS256,
            false,
            vec![1, 2, 3],
            vec![1, 0, 1],
            vec![4, 5, 6],
            Some([vec![7], vec![8], vec![9], vec![10], vec![11]])
        )
    );
}

#[test]
fn a_record_without_algorithm_takes_the_fallback_and_verifies_any() {
    let m = Jwk { alg: None, ..private_record() }
        .signing_material(RsaAlgorithm::RS512)
        .unwrap();
    assert_eq!(m.algorithm, RsaAlgorithm::RS512);
    assert!(m.verify_any);
}

#[test]
fn the_five_further_numbers_count_only_together() {
    let all = private_record();
    let lacking = [
        Jwk { p: None, ..all.clone() },
        Jwk { q: None, ..all.clone() },
        Jwk { dp: None, ..all.clone() },
        Jwk { dq: None, ..all.clone() },
        Jwk { qi: None, ..all.clone() },
        Jwk { p: None, q: None, dp: None, dq: None, qi: None, ..all.clone() },
        // What is left is not even looked at.
        Jwk { p: None, q: text("***"), ..all.clone() },
    ];
    for jwk in lacking {
        let m = jwk.signing_material(RsaAlgorithm::RS256).unwrap();
        assert_eq!(
            private_parts(m),
            (RsaAlgorithm::PS256, false, vec![1, 2, 3], vec![1, 0, 1], vec![4, 5, 6], None)
        );
    }
}

#[test]
fn private_material_refusals() {
    let all = private_record();
    assert_eq!(
        private_error(Jwk { kty: "EC".to_string(), ..all.clone() }),
        Error::UnsupportedOrInvalidKey
    );
    assert_eq!(private_error(Jwk { alg: text("RS257"), ..all.clone() }), Error::UnknownAlgorithm);
    assert_eq!(private_error(Jwk { n: None, ..all.clone() }), Error::UnsupportedOrInvalidKey);
    assert_eq!(private_error(Jwk { e: None, ..all.clone() }), Error::UnsupportedOrInvalidKey);
    assert_eq!(private_error(Jwk { d: None, ..all.clone() }), Error::UnsupportedOrInvalidKey);
    assert_eq!(private_error(Jwk { d: text("="), ..all.clone() }), Error::UnsupportedOrInvalidKey);
    // With all five further numbers there, each must be readable.
    assert_eq!(private_error(Jwk { qi: text("***"), ..all.clone() }), Error::UnsupportedOrInvalidKey);
    assert_eq!(private_error(public_record()), Error::UnsupportedOrInvalidKey);
}

#[test]
fn records_of_other_families_give_no_key() {
    let ec = Jwk { kty: "EC".to_string(), ..Jwk::default() };
    assert_eq!(ec.to_verification_key().unwrap_err(), Error::UnsupportedOrInvalidKey);
    assert_eq!(
        ec.to_signing_key(RsaAlgorithm::RS256).unwrap_err(),
        Error::UnsupportedOrInvalidKey
    );
}

#[test]
fn records_of_small_keys_give_no_key() {
    assert_eq!(
        public_record().to_verification_key().unwrap_err(),
        Error::UnsupportedOrInvalidKey
    );
    assert_eq!(
        private_record().to_signing_key(RsaAlgorithm::RS256).unwrap_err(),
        Error::UnsupportedOrInvalidKey
    );
    assert_eq!(
        Jwk { p: None, ..private_record() }
            .to_signing_key(RsaAlgorithm::RS256)
            .unwrap_err(),
        Error::UnsupportedOrInvalidKey
    );
}
