use jws_keys::{AlgorithmBinding, DigestKind, Error, RsaAlgorithm};

const ALL: [RsaAlgorithm; 6] = [
    RsaAlgorithm::RS256,
    RsaAlgorithm::RS384,
    RsaAlgorithm::RS512,
    RsaAlgorithm::PS256,
    RsaAlgorithm::PS384,
    RsaAlgorithm::PS512,
];

#[test]
fn names_are_the_canonical_ones() {
    assert_eq!(RsaAlgorithm::RS256.name(), "RS256");
    assert_eq!(RsaAlgorithm::RS384.name(), "RS384");
    assert_eq!(RsaAlgorithm::RS512.name(), "RS512");
    assert_eq!(RsaAlgorithm::PS256.name(), "PS256");
    assert_eq!(RsaAlgorithm::PS384.name(), "PS384");
    assert_eq!(RsaAlgorithm::PS512.name(), "PS512");
}

#[test]
fn names_round_trip() {
    for alg in ALL {
        assert_eq!(RsaAlgorithm::from_name(alg.name()), Ok(alg));
    }
}

#[test]
fn names_are_distinct() {
    for a in ALL {
        for b in ALL {
            assert_eq!(a.name() == b.name(), a == b);
        }
    }
}

#[test]
fn unknown_names_are_refused() {
    for name in ["", "rs256", "Rs256", "RS256 ", " RS256", "RS25", "RS2566", "ES256", "HS256", "none", "PS-256"] {
        assert_eq!(RsaAlgorithm::from_name(name), Err(Error::UnknownAlgorithm));
    }
}

#[test]
fn pss_is_the_ps_family() {
    assert!(!RsaAlgorithm::RS256.is_pss());
    assert!(!RsaAlgorithm::RS384.is_pss());
    assert!(!RsaAlgorithm::RS512.is_pss());
    assert!(RsaAlgorithm::PS256.is_pss());
    assert!(RsaAlgorithm::PS384.is_pss());
    assert!(RsaAlgorithm::PS512.is_pss());
}

#[test]
fn digests_follow_the_number_in_the_name() {
    assert_eq!(RsaAlgorithm::RS256.digest(), DigestKind::Sha256);
    assert_eq!(RsaAlgorithm::PS256.digest(), DigestKind::Sha256);
    assert_eq!(RsaAlgorithm::RS384.digest(), DigestKind::Sha384);
    assert_eq!(RsaAlgorithm::PS384.digest(), DigestKind::Sha384);
    assert_eq!(RsaAlgorithm::RS512.digest(), DigestKind::Sha512);
    assert_eq!(RsaAlgorithm::PS512.digest(), DigestKind::Sha512);
}

#[test]
fn bindings_of_keys() {
    assert_eq!(
        AlgorithmBinding::of_private(RsaAlgorithm::PS256, false),
        AlgorithmBinding::Pinned(RsaAlgorithm::PS256)
    );
    assert_eq!(
        AlgorithmBinding::of_private(RsaAlgorithm::PS256, true),
        AlgorithmBinding::Permissive
    );
    assert_eq!(
        AlgorithmBinding::of_public(Some(RsaAlgorithm::RS512)),
        AlgorithmBinding::Pinned(RsaAlgorithm::RS512)
    );
    assert_eq!(AlgorithmBinding::of_public(None), AlgorithmBinding::Permissive);
}

#[test]
fn pinned_binding_takes_its_own_name_only() {
    for pinned in ALL {
        for asserted in ALL {
            let resolved = AlgorithmBinding::Pinned(pinned).resolve(asserted.name());
            if asserted == pinned {
                assert_eq!(resolved, Ok(pinned));
            } else {
                assert_eq!(resolved, Err(Error::AlgorithmMismatch));
            }
        }
        assert_eq!(
            AlgorithmBinding::Pinned(pinned).resolve("WRONG ALG"),
            Err(Error::AlgorithmMismatch)
        );
        assert_eq!(
            AlgorithmBinding::Pinned(pinned).resolve(&pinned.name().to_lowercase()),
            Err(Error::AlgorithmMismatch)
        );
    }
}

#[test]
fn permissive_binding_takes_any_known_name() {
    for asserted in ALL {
        assert_eq!(AlgorithmBinding::Permissive.resolve(asserted.name()), Ok(asserted));
    }
    assert_eq!(
        AlgorithmBinding::Permissive.resolve("ES256"),
        Err(Error::UnknownAlgorithm)
    );
    assert_eq!(
        AlgorithmBinding::Permissive.resolve("ps256"),
        Err(Error::UnknownAlgorithm)
    );
}

#[test]
fn error_messages() {
    assert_eq!(Error::UnsupportedOrInvalidKey.message(), "unsupported or invalid key");
    assert_eq!(Error::UnknownAlgorithm.message(), "unknown algorithm");
    assert_eq!(Error::AlgorithmMismatch.message(), "algorithm mismatch");
    assert_eq!(Error::VerificationFailed.message(), "verification failed");
    assert_eq!(Error::SigningFailed.message(), "signing failed");
    assert_eq!(Error::EncodingError.message(), "encoding error");
}
