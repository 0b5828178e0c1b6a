//! The numbers of an RSA key as plain values: as natural numbers, as byte
//! strings, and as they are read out of a JSON record.

use crate::algorithm::RsaAlgorithm;
use crate::numbers::be_bytes;
use crate::views::opt_view;
use vstd::prelude::*;

verus! {

/// The secret numbers of an RSA key. The private exponent is always there;
/// the prime factors and the three numbers of the Chinese remainder theorem
/// are there if the key was made with them.
pub ghost struct RsaSecretNumbers {
    pub d: nat,
    pub p: Option<nat>,
    pub q: Option<nat>,
    pub dp: Option<nat>,
    pub dq: Option<nat>,
    pub qi: Option<nat>,
}

/// The secret numbers of a key as they are read out of a handle, each as the
/// shortest big-endian byte string.
pub struct RsaSecrets {
    pub d: Vec<u8>,
    pub p: Option<Vec<u8>>,
    pub q: Option<Vec<u8>>,
    pub dp: Option<Vec<u8>>,
    pub dq: Option<Vec<u8>>,
    pub qi: Option<Vec<u8>>,
}

/// The secret numbers of a key, each as a byte string.
pub ghost struct RsaSecretsView {
    pub d: Seq<u8>,
    pub p: Option<Seq<u8>>,
    pub q: Option<Seq<u8>>,
    pub dp: Option<Seq<u8>>,
    pub dq: Option<Seq<u8>>,
    pub qi: Option<Seq<u8>>,
}

impl View for RsaSecrets {
    type V = RsaSecretsView;

    open spec fn view(&self) -> RsaSecretsView {
        RsaSecretsView {
            d: self.d@,
            p: opt_view(self.p),
            q: opt_view(self.q),
            dp: opt_view(self.dp),
            dq: opt_view(self.dq),
            qi: opt_view(self.qi),
        }
    }
}

impl RsaSecretsView {
    /// The five further numbers, where all five are there.
    pub open spec fn crt(self) -> Option<RsaCrtView> {
        if self.p is Some && self.q is Some && self.dp is Some && self.dq is Some && self.qi
            is Some {
            Some(
                RsaCrtView {
                    p: self.p.unwrap(),
                    q: self.q.unwrap(),
                    dp: self.dp.unwrap(),
                    dq: self.dq.unwrap(),
                    qi: self.qi.unwrap(),
                },
            )
        } else {
            None
        }
    }
}

/// The written form of a number that may be absent.
pub open spec fn be_opt_bytes(number: Option<nat>) -> Option<Seq<u8>> {
    match number {
        Some(n) => Some(be_bytes(n)),
        None => None,
    }
}

impl RsaSecretNumbers {
    /// The numbers, each written as the shortest big-endian byte string.
    pub open spec fn written(self) -> RsaSecretsView {
        RsaSecretsView {
            d: be_bytes(self.d),
            p: be_opt_bytes(self.p),
            q: be_opt_bytes(self.q),
            dp: be_opt_bytes(self.dp),
            dq: be_opt_bytes(self.dq),
            qi: be_opt_bytes(self.qi),
        }
    }
}

/// What a record says of an RSA public key: its numbers as bytes, and the
/// algorithm it is pinned to, if any.
pub struct RsaPublicMaterial {
    pub n: Vec<u8>,
    pub e: Vec<u8>,
    pub algorithm: Option<RsaAlgorithm>,
}

/// What a record says of an RSA public key, as sequences of bytes.
pub ghost struct RsaPublicMaterialView {
    pub n: Seq<u8>,
    pub e: Seq<u8>,
    pub algorithm: Option<RsaAlgorithm>,
}

impl View for RsaPublicMaterial {
    type V = RsaPublicMaterialView;

    open spec fn view(&self) -> RsaPublicMaterialView {
        RsaPublicMaterialView { n: self.n@, e: self.e@, algorithm: self.algorithm }
    }
}

/// The prime factors of an RSA modulus and the three numbers of the Chinese
/// remainder theorem.
pub struct RsaCrt {
    pub p: Vec<u8>,
    pub q: Vec<u8>,
    pub dp: Vec<u8>,
    pub dq: Vec<u8>,
    pub qi: Vec<u8>,
}

/// The five further numbers of a private key, as sequences of bytes.
pub ghost struct RsaCrtView {
    pub p: Seq<u8>,
    pub q: Seq<u8>,
    pub dp: Seq<u8>,
    pub dq: Seq<u8>,
    pub qi: Seq<u8>,
}

impl View for RsaCrt {
    type V = RsaCrtView;

    open spec fn view(&self) -> RsaCrtView {
        RsaCrtView { p: self.p@, q: self.q@, dp: self.dp@, dq: self.dq@, qi: self.qi@ }
    }
}

/// What a record says of an RSA private key: the algorithm it signs with,
/// whether it verifies under any algorithm, its modulus and exponents, and
/// the five further numbers if the record holds all of them.
pub struct RsaPrivateMaterial {
    pub algorithm: RsaAlgorithm,
    pub verify_any: bool,
    pub n: Vec<u8>,
    pub e: Vec<u8>,
    pub d: Vec<u8>,
    pub crt: Option<RsaCrt>,
}

/// What a record says of an RSA private key, as sequences of bytes.
pub ghost struct RsaPrivateMaterialView {
    pub algorithm: RsaAlgorithm,
    pub verify_any: bool,
    pub n: Seq<u8>,
    pub e: Seq<u8>,
    pub d: Seq<u8>,
    pub crt: Option<RsaCrtView>,
}

impl RsaCrtView {
    /// Whether one of the numbers has more than `limit` bytes.
    pub open spec fn too_long(self, limit: nat) -> bool {
        self.p.len() > limit || self.q.len() > limit || self.dp.len() > limit || self.dq.len()
            > limit || self.qi.len() > limit
    }
}

impl RsaPrivateMaterialView {
    /// Whether one of the numbers has more than `limit` bytes.
    pub open spec fn too_long(self, limit: nat) -> bool {
        ||| self.n.len() > limit
        ||| self.e.len() > limit
        ||| self.d.len() > limit
        ||| (self.crt matches Some(crt) && crt.too_long(limit))
    }
}

impl View for RsaPrivateMaterial {
    type V = RsaPrivateMaterialView;

    open spec fn view(&self) -> RsaPrivateMaterialView {
        RsaPrivateMaterialView {
            algorithm: self.algorithm,
            verify_any: self.verify_any,
            n: self.n@,
            e: self.e@,
            d: self.d@,
            crt: opt_view(self.crt),
        }
    }
}

} // verus!
