//! The algorithm registry: a fixed table from an algorithm's identifier to
//! the key family it needs, its digest and, for RSA, its padding scheme.

use vstd::prelude::*;
use crate::text::same_text;

verus! {

/// The signature algorithms of the table.
#[allow(clippy::upper_case_acronyms)]
#[derive(Clone, Copy, Debug, PartialEq, Eq, Structural)]
pub enum AlgorithmId {
    RS256,
    RS384,
    RS512,
    PS256,
    PS384,
    PS512,
    ES256,
    ES384,
    ES512,
    EdDSA,
}

/// The three unrelated families of keys.
#[allow(clippy::upper_case_acronyms)]
#[derive(Clone, Copy, Debug, PartialEq, Eq, Structural)]
pub enum KeyFamily {
    RSA,
    EllipticCurve,
    EdwardsCurve,
}

/// The digest that is computed over the signing input.
#[allow(clippy::upper_case_acronyms)]
#[derive(Clone, Copy, Debug, PartialEq, Eq, Structural)]
pub enum DigestKind {
    SHA256,
    SHA384,
    SHA512,
}

/// How an RSA signature is padded.
#[allow(clippy::upper_case_acronyms)]
#[derive(Clone, Copy, Debug, PartialEq, Eq, Structural)]
pub enum PaddingScheme {
    PKCS1v15,
    PSS,
}

/// An identifier that is not in the table.
#[derive(Clone, Copy, Debug, PartialEq, Eq, Structural)]
pub struct UnsupportedAlgorithm;

/// One row of the table.
#[derive(Clone, Copy, Debug, PartialEq, Eq, Structural)]
pub struct AlgorithmProfile {
    pub id: AlgorithmId,
    pub family: KeyFamily,
    /// `None` for EdDSA, which hashes inside the algorithm.
    pub digest: Option<DigestKind>,
    /// `Some` for RSA only.
    pub padding: Option<PaddingScheme>,
}

/// The identifier that `alg` is written as.
pub open spec fn token_of(alg: AlgorithmId) -> Seq<char> {
    match alg {
        AlgorithmId::RS256 => "RS256"@,
        AlgorithmId::RS384 => "RS384"@,
        AlgorithmId::RS512 => "RS512"@,
        AlgorithmId::PS256 => "PS256"@,
        AlgorithmId::PS384 => "PS384"@,
        AlgorithmId::PS512 => "PS512"@,
        AlgorithmId::ES256 => "ES256"@,
        AlgorithmId::ES384 => "ES384"@,
        AlgorithmId::ES512 => "ES512"@,
        AlgorithmId::EdDSA => "EdDSA"@,
    }
}

/// The algorithm that `token` names, if any. Identifiers are case-sensitive.
pub open spec fn parse_algorithm(token: Seq<char>) -> Option<AlgorithmId> {
    if token == "RS256"@ {
        Some(AlgorithmId::RS256)
    } else if token == "RS384"@ {
        Some(AlgorithmId::RS384)
    } else if token == "RS512"@ {
        Some(AlgorithmId::RS512)
    } else if token == "PS256"@ {
        Some(AlgorithmId::PS256)
    } else if token == "PS384"@ {
        Some(AlgorithmId::PS384)
    } else if token == "PS512"@ {
        Some(AlgorithmId::PS512)
    } else if token == "ES256"@ {
        Some(AlgorithmId::ES256)
    } else if token == "ES384"@ {
        Some(AlgorithmId::ES384)
    } else if token == "ES512"@ {
        Some(AlgorithmId::ES512)
    } else if token == "EdDSA"@ {
        Some(AlgorithmId::EdDSA)
    } else {
        None
    }
}

/// The family of keys that `alg` signs and verifies with.
pub open spec fn family_of(alg: AlgorithmId) -> KeyFamily {
    match alg {
        AlgorithmId::RS256 | AlgorithmId::RS384 | AlgorithmId::RS512 => KeyFamily::RSA,
        AlgorithmId::PS256 | AlgorithmId::PS384 | AlgorithmId::PS512 => KeyFamily::RSA,
        AlgorithmId::ES256 | AlgorithmId::ES384 | AlgorithmId::ES512 => KeyFamily::EllipticCurve,
        AlgorithmId::EdDSA => KeyFamily::EdwardsCurve,
    }
}

/// The digest of `alg`; EdDSA has none of its own.
pub open spec fn digest_of(alg: AlgorithmId) -> Option<DigestKind> {
    match alg {
        AlgorithmId::RS256 | AlgorithmId::PS256 | AlgorithmId::ES256 => Some(DigestKind::SHA256),
        AlgorithmId::RS384 | AlgorithmId::PS384 | AlgorithmId::ES384 => Some(DigestKind::SHA384),
        AlgorithmId::RS512 | AlgorithmId::PS512 | AlgorithmId::ES512 => Some(DigestKind::SHA512),
        AlgorithmId::EdDSA => None,
    }
}

/// The padding scheme of `alg`; only RSA has one.
pub open spec fn padding_of(alg: AlgorithmId) -> Option<PaddingScheme> {
    match alg {
        AlgorithmId::RS256 | AlgorithmId::RS384 | AlgorithmId::RS512 => Some(
            PaddingScheme::PKCS1v15,
        ),
        AlgorithmId::PS256 | AlgorithmId::PS384 | AlgorithmId::PS512 => Some(PaddingScheme::PSS),
        _ => None,
    }
}

/// The row of `alg`.
pub open spec fn profile_of(alg: AlgorithmId) -> AlgorithmProfile {
    AlgorithmProfile {
        id: alg,
        family: family_of(alg),
        digest: digest_of(alg),
        padding: padding_of(alg),
    }
}

impl AlgorithmId {
    /// Reads an identifier; one outside the table is unsupported.
    pub fn from_token(token: &str) -> (r: Result<AlgorithmId, UnsupportedAlgorithm>)
        ensures
            r matches Ok(alg) ==> parse_algorithm(token@) == Some(alg),
            r is Err ==> parse_algorithm(token@) is None,
    {
        if same_text(token, "RS256") {
            Ok(AlgorithmId::RS256)
        } else if same_text(token, "RS384") {
            Ok(AlgorithmId::RS384)
        } else if same_text(token, "RS512") {
            Ok(AlgorithmId::RS512)
        } else if same_text(token, "PS256") {
            Ok(AlgorithmId::PS256)
        } else if same_text(token, "PS384") {
            Ok(AlgorithmId::PS384)
        } else if same_text(token, "PS512") {
            Ok(AlgorithmId::PS512)
        } else if same_text(token, "ES256") {
            Ok(AlgorithmId::ES256)
        } else if same_text(token, "ES384") {
            Ok(AlgorithmId::ES384)
        } else if same_text(token, "ES512") {
            Ok(AlgorithmId::ES512)
        } else if same_text(token, "EdDSA") {
            Ok(AlgorithmId::EdDSA)
        } else {
            Err(UnsupportedAlgorithm)
        }
    }

    /// The identifier of this algorithm.
    pub fn token(self) -> (t: &'static str)
        ensures
            t@ == token_of(self),
    {
        match self {
            AlgorithmId::RS256 => "RS256",
            AlgorithmId::RS384 => "RS384",
            AlgorithmId::RS512 => "RS512",
            AlgorithmId::PS256 => "PS256",
            AlgorithmId::PS384 => "PS384",
            AlgorithmId::PS512 => "PS512",
            AlgorithmId::ES256 => "ES256",
            AlgorithmId::ES384 => "ES384",
            AlgorithmId::ES512 => "ES512",
            AlgorithmId::EdDSA => "EdDSA",
        }
    }

    /// The family of keys this algorithm needs.
    pub fn family(self) -> (f: KeyFamily)
        ensures
            f == family_of(self),
    {
        match self {
            AlgorithmId::RS256 | AlgorithmId::RS384 | AlgorithmId::RS512 => KeyFamily::RSA,
            AlgorithmId::PS256 | AlgorithmId::PS384 | AlgorithmId::PS512 => KeyFamily::RSA,
            AlgorithmId::ES256 | AlgorithmId::ES384 | AlgorithmId::ES512 => {
                KeyFamily::EllipticCurve
            },
            AlgorithmId::EdDSA => KeyFamily::EdwardsCurve,
        }
    }

    /// The digest of this algorithm, if it has one of its own.
    pub fn digest(self) -> (d: Option<DigestKind>)
        ensures
            d == digest_of(self),
    {
        match self {
            AlgorithmId::RS256 | AlgorithmId::PS256 | AlgorithmId::ES256 => Some(
                DigestKind::SHA256,
            ),
            AlgorithmId::RS384 | AlgorithmId::PS384 | AlgorithmId::ES384 => Some(
                DigestKind::SHA384,
            ),
            AlgorithmId::RS512 | AlgorithmId::PS512 | AlgorithmId::ES512 => Some(
                DigestKind::SHA512,
            ),
            AlgorithmId::EdDSA => None,
        }
    }

    /// The padding scheme of this algorithm, if it is an RSA algorithm.
    pub fn padding(self) -> (p: Option<PaddingScheme>)
        ensures
            p == padding_of(self),
    {
        match self {
            AlgorithmId::RS256 | AlgorithmId::RS384 | AlgorithmId::RS512 => Some(
                PaddingScheme::PKCS1v15,
            ),
            AlgorithmId::PS256 | AlgorithmId::PS384 | AlgorithmId::PS512 => Some(
                PaddingScheme::PSS,
            ),
            _ => None,
        }
    }

    /// The row of this algorithm.
    pub fn profile(self) -> (p: AlgorithmProfile)
        ensures
            p == profile_of(self),
    {
        AlgorithmProfile {
            id: self,
            family: self.family(),
            digest: self.digest(),
            padding: self.padding(),
        }
    }
}

/// Looks an identifier up in the table.
pub fn lookup(token: &str) -> (r: Result<AlgorithmProfile, UnsupportedAlgorithm>)
    ensures
        r matches Ok(p) ==> parse_algorithm(token@) == Some(p.id) && p == profile_of(p.id),
        r is Err ==> parse_algorithm(token@) is None,
{
    match AlgorithmId::from_token(token) {
        Ok(alg) => Ok(alg.profile()),
        Err(e) => Err(e),
    }
}

/// Reading the identifier of an algorithm gives that algorithm back: no two
/// rows of the table share an identifier.
pub proof fn lemma_token_names_its_algorithm(alg: AlgorithmId)
    ensures
        parse_algorithm(token_of(alg)) == Some(alg),
{
    reveal_strlit("RS256");
    reveal_strlit("RS384");
    reveal_strlit("RS512");
    reveal_strlit("PS256");
    reveal_strlit("PS384");
    reveal_strlit("PS512");
    reveal_strlit("ES256");
    reveal_strlit("ES384");
    reveal_strlit("ES512");
    reveal_strlit("EdDSA");
    assert("RS384"@[0] == 'R' && "RS384"@[2] == '3');
    assert("RS512"@[0] == 'R' && "RS512"@[2] == '5');
    assert("PS256"@[0] == 'P' && "PS256"@[2] == '2');
    assert("PS384"@[0] == 'P' && "PS384"@[2] == '3');
    assert("PS512"@[0] == 'P' && "PS512"@[2] == '5');
    assert("ES256"@[0] == 'E' && "ES256"@[1] == 'S' && "ES256"@[2] == '2');
    assert("ES384"@[0] == 'E' && "ES384"@[1] == 'S' && "ES384"@[2] == '3');
    assert("ES512"@[0] == 'E' && "ES512"@[1] == 'S' && "ES512"@[2] == '5');
    assert("EdDSA"@[0] == 'E' && "EdDSA"@[1] == 'd');
}

/// A text names an algorithm only if it is that algorithm's identifier.
pub proof fn lemma_parsed_algorithm_has_that_token(token: Seq<char>)
    ensures
        parse_algorithm(token) matches Some(alg) ==> token_of(alg) == token,
{
}

/// An algorithm has a padding scheme exactly when it is an RSA algorithm, and
/// a digest of its own exactly when it is not EdDSA.
pub proof fn lemma_padding_and_digest_follow_the_family(alg: AlgorithmId)
    ensures
        padding_of(alg) is Some <==> family_of(alg) == KeyFamily::RSA,
        digest_of(alg) is None <==> family_of(alg) == KeyFamily::EdwardsCurve,
{
}

} // verus!
