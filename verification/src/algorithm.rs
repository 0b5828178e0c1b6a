//! The RSA signature algorithms, their names, and the rule by which a key
//! decides under which algorithm it verifies.

use crate::error::Error;
use crate::text::str_eq;
use vstd::prelude::*;

verus! {

/// The hash function that a signature algorithm applies to the message.
#[derive(Debug, Clone, Copy, PartialEq, Eq, Structural)]
pub enum DigestKind {
    Sha256,
    Sha384,
    Sha512,
}

/// RSA signature algorithms.
#[non_exhaustive]
#[derive(Debug, Clone, Copy, PartialEq, Eq, Structural)]
pub enum RsaAlgorithm {
    RS256,
    RS384,
    RS512,
    PS256,
    PS384,
    PS512,
}

impl RsaAlgorithm {
    pub open spec fn spec_is_pss(self) -> bool {
        self == RsaAlgorithm::PS256 || self == RsaAlgorithm::PS384 || self == RsaAlgorithm::PS512
    }

    /// Whether the algorithm pads probabilistically (RSASSA-PSS) rather than
    /// deterministically (RSASSA-PKCS1-v1_5).
    #[verifier::when_used_as_spec(spec_is_pss)]
    pub fn is_pss(self) -> (r: bool)
        ensures
            r == self.spec_is_pss(),
    {
        match self {
            RsaAlgorithm::PS256 | RsaAlgorithm::PS384 | RsaAlgorithm::PS512 => true,
            RsaAlgorithm::RS256 | RsaAlgorithm::RS384 | RsaAlgorithm::RS512 => false,
        }
    }

    pub open spec fn spec_digest(self) -> DigestKind {
        match self {
            RsaAlgorithm::RS256 | RsaAlgorithm::PS256 => DigestKind::Sha256,
            RsaAlgorithm::RS384 | RsaAlgorithm::PS384 => DigestKind::Sha384,
            RsaAlgorithm::RS512 | RsaAlgorithm::PS512 => DigestKind::Sha512,
        }
    }

    /// The hash function of the algorithm.
    #[verifier::when_used_as_spec(spec_digest)]
    pub fn digest(self) -> (r: DigestKind)
        ensures
            r == self.spec_digest(),
    {
        match self {
            RsaAlgorithm::RS256 | RsaAlgorithm::PS256 => DigestKind::Sha256,
            RsaAlgorithm::RS384 | RsaAlgorithm::PS384 => DigestKind::Sha384,
            RsaAlgorithm::RS512 | RsaAlgorithm::PS512 => DigestKind::Sha512,
        }
    }

    /// The canonical name as a sequence of characters.
    pub open spec fn name_view(self) -> Seq<char> {
        match self {
            RsaAlgorithm::RS256 => "RS256"@,
            RsaAlgorithm::RS384 => "RS384"@,
            RsaAlgorithm::RS512 => "RS512"@,
            RsaAlgorithm::PS256 => "PS256"@,
            RsaAlgorithm::PS384 => "PS384"@,
            RsaAlgorithm::PS512 => "PS512"@,
        }
    }

    /// The canonical name of the algorithm.
    pub fn name(self) -> (r: &'static str)
        ensures
            r@ == self.name_view(),
    {
        match self {
            RsaAlgorithm::RS256 => "RS256",
            RsaAlgorithm::RS384 => "RS384",
            RsaAlgorithm::RS512 => "RS512",
            RsaAlgorithm::PS256 => "PS256",
            RsaAlgorithm::PS384 => "PS384",
            RsaAlgorithm::PS512 => "PS512",
        }
    }

    /// The algorithm that a name stands for: the one whose canonical name the
    /// text is, character for character.
    pub open spec fn parse(name: Seq<char>) -> Result<RsaAlgorithm, Error> {
        if name == "RS256"@ {
            Ok(RsaAlgorithm::RS256)
        } else if name == "RS384"@ {
            Ok(RsaAlgorithm::RS384)
        } else if name == "RS512"@ {
            Ok(RsaAlgorithm::RS512)
        } else if name == "PS256"@ {
            Ok(RsaAlgorithm::PS256)
        } else if name == "PS384"@ {
            Ok(RsaAlgorithm::PS384)
        } else if name == "PS512"@ {
            Ok(RsaAlgorithm::PS512)
        } else {
            Err(Error::UnknownAlgorithm)
        }
    }

    /// Reads an algorithm name. Only the six canonical names are known, in
    /// exactly their spelling.
    pub fn from_name(name: &str) -> (r: Result<RsaAlgorithm, Error>)
        ensures
            r == Self::parse(name@),
    {
        if str_eq(name, "RS256") {
            Ok(RsaAlgorithm::RS256)
        } else if str_eq(name, "RS384") {
            Ok(RsaAlgorithm::RS384)
        } else if str_eq(name, "RS512") {
            Ok(RsaAlgorithm::RS512)
        } else if str_eq(name, "PS256") {
            Ok(RsaAlgorithm::PS256)
        } else if str_eq(name, "PS384") {
            Ok(RsaAlgorithm::PS384)
        } else if str_eq(name, "PS512") {
            Ok(RsaAlgorithm::PS512)
        } else {
            Err(Error::UnknownAlgorithm)
        }
    }

    /// What the six names are, letter by letter.
    pub proof fn lemma_names(self)
        ensures
            self.name_view().len() == 5,
            self.name_view()[0] == (if self.is_pss() { 'P' } else { 'R' }),
            self.name_view()[1] == 'S',
            self.name_view()[2] == (match self.digest() {
                DigestKind::Sha256 => '2',
                DigestKind::Sha384 => '3',
                DigestKind::Sha512 => '5',
            }),
    {
        reveal_strlit("RS256");
        reveal_strlit("RS384");
        reveal_strlit("RS512");
        reveal_strlit("PS256");
        reveal_strlit("PS384");
        reveal_strlit("PS512");
    }

    /// Two algorithms with the same name are the same algorithm.
    pub proof fn lemma_name_injective(self, other: RsaAlgorithm)
        requires
            self.name_view() == other.name_view(),
        ensures
            self == other,
    {
        self.lemma_names();
        other.lemma_names();
    }

    /// Reading the canonical name of an algorithm gives the algorithm back.
    pub proof fn lemma_parse_name(self)
        ensures
            Self::parse(self.name_view()) == Ok::<RsaAlgorithm, Error>(self),
    {
        RsaAlgorithm::RS256.lemma_names();
        RsaAlgorithm::RS384.lemma_names();
        RsaAlgorithm::RS512.lemma_names();
        RsaAlgorithm::PS256.lemma_names();
        RsaAlgorithm::PS384.lemma_names();
        RsaAlgorithm::PS512.lemma_names();
    }

    /// A text is read as an algorithm only if it is that algorithm's canonical
    /// name; every other text, whatever its case, is unknown.
    pub proof fn lemma_parse_exact(name: Seq<char>)
        ensures
            match Self::parse(name) {
                Ok(alg) => name == alg.name_view(),
                Err(e) => e == Error::UnknownAlgorithm && forall|alg: RsaAlgorithm|
                    name != #[trigger] alg.name_view(),
            },
    {
    }
}

/// How a key is bound to the algorithms under which it verifies.
#[derive(Debug, Clone, Copy, PartialEq, Eq, Structural)]
pub enum AlgorithmBinding {
    /// The key verifies under this one algorithm and no other.
    Pinned(RsaAlgorithm),
    /// The key verifies under whichever RSA algorithm is asserted.
    Permissive,
}

impl AlgorithmBinding {
    /// The binding of a private key: pinned to its signing algorithm unless it
    /// was told to verify any.
    pub open spec fn spec_of_private(
        algorithm: RsaAlgorithm,
        verify_any: bool,
    ) -> AlgorithmBinding {
        if verify_any {
            AlgorithmBinding::Permissive
        } else {
            AlgorithmBinding::Pinned(algorithm)
        }
    }

    #[verifier::when_used_as_spec(spec_of_private)]
    pub fn of_private(algorithm: RsaAlgorithm, verify_any: bool) -> (r: AlgorithmBinding)
        ensures
            r == Self::spec_of_private(algorithm, verify_any),
    {
        if verify_any {
            AlgorithmBinding::Permissive
        } else {
            AlgorithmBinding::Pinned(algorithm)
        }
    }

    /// The binding of a public key: pinned if it carries an algorithm.
    pub open spec fn spec_of_public(algorithm: Option<RsaAlgorithm>) -> AlgorithmBinding {
        match algorithm {
            Some(alg) => AlgorithmBinding::Pinned(alg),
            None => AlgorithmBinding::Permissive,
        }
    }

    #[verifier::when_used_as_spec(spec_of_public)]
    pub fn of_public(algorithm: Option<RsaAlgorithm>) -> (r: AlgorithmBinding)
        ensures
            r == Self::spec_of_public(algorithm),
    {
        match algorithm {
            Some(alg) => AlgorithmBinding::Pinned(alg),
            None => AlgorithmBinding::Permissive,
        }
    }

    /// The algorithm that the key is pinned to, if it is pinned.
    pub open spec fn pinned(self) -> Option<RsaAlgorithm> {
        match self {
            AlgorithmBinding::Pinned(alg) => Some(alg),
            AlgorithmBinding::Permissive => None,
        }
    }

    /// The name that a key with this binding puts into its JSON form: the
    /// pinned algorithm's, or none.
    pub open spec fn published_name(self) -> Option<Seq<char>> {
        match self {
            AlgorithmBinding::Pinned(alg) => Some(alg.name_view()),
            AlgorithmBinding::Permissive => None,
        }
    }

    /// Under which algorithm a signature is checked when `asserted` is the
    /// algorithm name that came with it.
    ///
    /// A pinned key takes its own algorithm, and only if the asserted name is
    /// that algorithm's name. A permissive key takes the algorithm that the
    /// name stands for.
    pub open spec fn resolution(self, asserted: Seq<char>) -> Result<RsaAlgorithm, Error> {
        match self {
            AlgorithmBinding::Pinned(alg) => if asserted == alg.name_view() {
                Ok(alg)
            } else {
                Err(Error::AlgorithmMismatch)
            },
            AlgorithmBinding::Permissive => RsaAlgorithm::parse(asserted),
        }
    }

    /// Reconciles the asserted algorithm name with the binding.
    pub fn resolve(self, asserted: &str) -> (r: Result<RsaAlgorithm, Error>)
        ensures
            r == self.resolution(asserted@),
    {
        match self {
            AlgorithmBinding::Pinned(alg) => {
                if str_eq(asserted, alg.name()) {
                    Ok(alg)
                } else {
                    Err(Error::AlgorithmMismatch)
                }
            },
            AlgorithmBinding::Permissive => RsaAlgorithm::from_name(asserted),
        }
    }

    /// A pinned key refuses the name of every other algorithm as a mismatch,
    /// before any signature is looked at.
    pub proof fn lemma_pinned_refuses_others(pinned: RsaAlgorithm, other: RsaAlgorithm)
        requires
            other != pinned,
        ensures
            AlgorithmBinding::Pinned(pinned).resolution(other.name_view()) == Err::<
                RsaAlgorithm,
                Error,
            >(Error::AlgorithmMismatch),
    {
        if other.name_view() == pinned.name_view() {
            other.lemma_name_injective(pinned);
        }
    }

    /// Every key, pinned or permissive, resolves the name of its own algorithm
    /// to that algorithm: the digest and padding it verifies with are those it
    /// signs with.
    pub proof fn lemma_own_name_resolves(algorithm: RsaAlgorithm, verify_any: bool)
        ensures
            Self::spec_of_private(algorithm, verify_any).resolution(algorithm.name_view()) == Ok::<
                RsaAlgorithm,
                Error,
            >(algorithm),
            Self::spec_of_public(Some(algorithm)).resolution(algorithm.name_view()) == Ok::<
                RsaAlgorithm,
                Error,
            >(algorithm),
            Self::spec_of_public(None).resolution(algorithm.name_view()) == Ok::<
                RsaAlgorithm,
                Error,
            >(algorithm),
    {
        algorithm.lemma_parse_name();
    }

    /// Whatever the binding, a name that resolves is the canonical name of the
    /// algorithm it resolves to: no key ever verifies under an algorithm other
    /// than the one named.
    pub proof fn lemma_resolved_is_named(self, asserted: Seq<char>)
        ensures
            self.resolution(asserted) matches Ok(alg) ==> asserted == alg.name_view(),
            self.resolution(asserted) matches Err(e) ==> e == Error::AlgorithmMismatch || e
                == Error::UnknownAlgorithm,
    {
        RsaAlgorithm::lemma_parse_exact(asserted);
    }
}

} // verus!
