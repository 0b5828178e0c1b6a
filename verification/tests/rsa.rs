use jws_keys::{
    Error, PrivateKeyToJwk, PublicKeyToJwk, RsaAlgorithm, RsaPrivateKey, RsaPublicKey,
    SigningKey, SomePrivateKey, VerificationKey,
};
use openssl::ec::{EcGroup, EcKey};
use openssl::nid::Nid;
use openssl::pkey::PKey;

fn ec_private_key_pem() -> String {
    let group = EcGroup::from_curve_name(Nid::X9_62_PRIME256V1).unwrap();
    let key = PKey::from_ec_key(EcKey::generate(&group).unwrap()).unwrap();
    String::from_utf8(key.private_key_to_pem_pkcs8().unwrap()).unwrap()
}

#[test]
fn conversion() -> Result<(), Error> {
    let k = RsaPrivateKey::generate(2048, RsaAlgorithm::PS384)?;
    let pem = k.private_key_to_pem_pkcs8()?;
    RsaPrivateKey::from_pem(pem.as_bytes(), RsaAlgorithm::PS384)?;

    let es256key_pem = ec_private_key_pem();
    assert!(RsaPrivateKey::from_pem(es256key_pem.as_bytes(), RsaAlgorithm::PS384).is_err());

    let pk_pem = k.public_key_to_pem()?;
    let pk_pem_pkcs1 = k.public_key_to_pem_pkcs1()?;

    let pk = RsaPublicKey::from_pem(pk_pem.as_bytes(), None)?;
    let pk1 = RsaPublicKey::from_pem(pk_pem_pkcs1.as_bytes(), None)?;

    println!("pk: {:?}", pk);

    let pk_pem1 = pk1.to_pem()?;
    let pk_pem_pkcs1_1 = pk.to_pem_pkcs1()?;

    assert_eq!(pk_pem, pk_pem1);
    assert_eq!(pk_pem_pkcs1, pk_pem_pkcs1_1);

    assert_eq!(k.alg(), "PS384");

    if let SomePrivateKey::Rsa(k1) = k
        .private_key_to_jwk()?
        .to_signing_key(RsaAlgorithm::RS512)?
    {
        assert!(k.public_eq(&k1));
    } else {
        panic!("expected rsa private key");
    }

    k.public_key_to_jwk()?.to_verification_key()?;
    pk.public_key_to_jwk()?;

    Ok(())
}

#[test]
fn test_private_key_from_jwk_n_e_d_only() -> Result<(), Error> {
    let k = RsaPrivateKey::generate(2048, RsaAlgorithm::PS256)?;
    let mut jwk = k.private_key_to_jwk()?;
    jwk.p = None;
    jwk.q = None;
    jwk.dp = None;
    jwk.dq = None;
    jwk.qi = None;
    let k1 = jwk.to_signing_key(RsaAlgorithm::RS256)?;
    let sig = k1.sign(b"msg")?;
    k.verify(b"msg", &sig, "PS256")?;
    k1.verify(b"msg", &sig, "PS256")?;
    let sig = k.sign(b"msg")?;
    k1.verify(b"msg", &sig, "PS256")?;
    Ok(())
}

#[test]
fn sign_verify() -> Result<(), Error> {
    for alg in [
        RsaAlgorithm::RS256,
        RsaAlgorithm::RS384,
        RsaAlgorithm::RS512,
        RsaAlgorithm::PS256,
        RsaAlgorithm::PS384,
        RsaAlgorithm::PS512,
    ] {
        let k = RsaPrivateKey::generate(2048, alg)?;
        let pk = RsaPublicKey::from_pem(k.public_key_to_pem()?.as_bytes(), None)?;
        let sig = k.sign(b"...")?;
        assert!(k.verify(b"...", &sig, alg.name()).is_ok());
        assert!(k.verify(b"...", &sig, "WRONG ALG").is_err());
        assert!(k.verify(b"....", &sig, alg.name()).is_err());
        assert!(pk.verify(b"...", &sig, alg.name()).is_ok());
        assert!(pk.verify(b"....", &sig, alg.name()).is_err());
    }
    Ok(())
}
