//! The boundary to the cryptographic library: which of the table's algorithms
//! it offers, and the two calls that sign and check a signature.

use vstd::prelude::*;
use crate::codec::is_url_safe_text;
use crate::keys::decoding_key_family;
use crate::registry::{parse_algorithm, AlgorithmId, KeyFamily};

verus! {

/// `jsonwebtoken::Algorithm`, an enum without fields. It is declared with
/// its variants, so that they are written and matched here as they are
/// there.
#[verifier::external_type_specification]
pub struct ExAlgorithm(jsonwebtoken::Algorithm);

/// The cryptographic library's algorithm for `alg`. It has none for ES512:
/// it offers no curve P-521. That is a known limit of this engine, which
/// reports ES512 as unsupported wherever it would have to sign or verify.
pub open spec fn backend_algorithm_of(alg: AlgorithmId) -> Option<jsonwebtoken::Algorithm> {
    match alg {
        AlgorithmId::RS256 => Some(jsonwebtoken::Algorithm::RS256),
        AlgorithmId::RS384 => Some(jsonwebtoken::Algorithm::RS384),
        AlgorithmId::RS512 => Some(jsonwebtoken::Algorithm::RS512),
        AlgorithmId::PS256 => Some(jsonwebtoken::Algorithm::PS256),
        AlgorithmId::PS384 => Some(jsonwebtoken::Algorithm::PS384),
        AlgorithmId::PS512 => Some(jsonwebtoken::Algorithm::PS512),
        AlgorithmId::ES256 => Some(jsonwebtoken::Algorithm::ES256),
        AlgorithmId::ES384 => Some(jsonwebtoken::Algorithm::ES384),
        AlgorithmId::ES512 => None,
        AlgorithmId::EdDSA => Some(jsonwebtoken::Algorithm::EdDSA),
    }
}

/// The family of keys that the cryptographic library's algorithm works with;
/// `None` for the shared-secret algorithms, which are not in the table.
pub open spec fn backend_family_of(alg: jsonwebtoken::Algorithm) -> Option<KeyFamily> {
    match alg {
        jsonwebtoken::Algorithm::HS256 => None,
        jsonwebtoken::Algorithm::HS384 => None,
        jsonwebtoken::Algorithm::HS512 => None,
        jsonwebtoken::Algorithm::ES256 => Some(KeyFamily::EllipticCurve),
        jsonwebtoken::Algorithm::ES384 => Some(KeyFamily::EllipticCurve),
        jsonwebtoken::Algorithm::RS256 => Some(KeyFamily::RSA),
        jsonwebtoken::Algorithm::RS384 => Some(KeyFamily::RSA),
        jsonwebtoken::Algorithm::RS512 => Some(KeyFamily::RSA),
        jsonwebtoken::Algorithm::PS256 => Some(KeyFamily::RSA),
        jsonwebtoken::Algorithm::PS384 => Some(KeyFamily::RSA),
        jsonwebtoken::Algorithm::PS512 => Some(KeyFamily::RSA),
        jsonwebtoken::Algorithm::EdDSA => Some(KeyFamily::EdwardsCurve),
    }
}

/// The verdict of `jsonwebtoken::crypto::verify` on a signature segment, a
/// message, a key and an algorithm: whether the signature belongs to the
/// message, or `None` where the segment cannot be decoded.
pub uninterp spec fn signature_verdict(
    alg: jsonwebtoken::Algorithm,
    signature: Seq<char>,
    message: Seq<u8>,
    key: jsonwebtoken::DecodingKey,
) -> Option<bool>;

/// The algorithms that sign without drawing a random number: RSA with
/// PKCS#1 v1.5 padding, and EdDSA. Under these a signature is a function of
/// the message and the key. RSA-PSS draws a salt and ECDSA a nonce.
pub open spec fn signs_without_chance(alg: jsonwebtoken::Algorithm) -> bool {
    ||| alg == jsonwebtoken::Algorithm::RS256
    ||| alg == jsonwebtoken::Algorithm::RS384
    ||| alg == jsonwebtoken::Algorithm::RS512
    ||| alg == jsonwebtoken::Algorithm::EdDSA
}

/// The signature that `jsonwebtoken::crypto::sign` gives for a message and a
/// key under an algorithm that signs without chance, as base64url text;
/// `None` where it does not sign with the key.
pub uninterp spec fn fixed_signature(
    alg: jsonwebtoken::Algorithm,
    message: Seq<u8>,
    key: jsonwebtoken::EncodingKey,
) -> Option<Seq<char>>;

/// `signature` is what `jsonwebtoken::crypto::sign` returned on some call
/// for this message and this key under this algorithm.
pub uninterp spec fn is_signature_of(
    alg: jsonwebtoken::Algorithm,
    message: Seq<u8>,
    key: jsonwebtoken::EncodingKey,
    signature: Seq<char>,
) -> bool;

/// What the length of a signature segment must be under an algorithm: 86
/// characters for the 64 bytes of an Ed25519 or a P-256 signature, 128 for
/// the 96 bytes of a P-384 signature, and at least 342 for an RSA signature,
/// which is as long as the modulus of the key, and that is no shorter than
/// 2048 bits. The cryptographic library signs and accepts no other.
pub open spec fn has_signature_length(alg: jsonwebtoken::Algorithm, signature: Seq<char>) -> bool {
    match alg {
        jsonwebtoken::Algorithm::EdDSA => signature.len() == 86,
        jsonwebtoken::Algorithm::ES256 => signature.len() == 86,
        jsonwebtoken::Algorithm::ES384 => signature.len() == 128,
        jsonwebtoken::Algorithm::RS256 => signature.len() >= 342,
        jsonwebtoken::Algorithm::RS384 => signature.len() >= 342,
        jsonwebtoken::Algorithm::RS512 => signature.len() >= 342,
        jsonwebtoken::Algorithm::PS256 => signature.len() >= 342,
        jsonwebtoken::Algorithm::PS384 => signature.len() >= 342,
        jsonwebtoken::Algorithm::PS512 => signature.len() >= 342,
        _ => true,
    }
}

/// The cryptographic library's algorithm for `alg`, if it has one.
pub fn backend_algorithm(alg: AlgorithmId) -> (r: Option<jsonwebtoken::Algorithm>)
    ensures
        r == backend_algorithm_of(alg),
{
    match alg {
        AlgorithmId::RS256 => Some(jsonwebtoken::Algorithm::RS256),
        AlgorithmId::RS384 => Some(jsonwebtoken::Algorithm::RS384),
        AlgorithmId::RS512 => Some(jsonwebtoken::Algorithm::RS512),
        AlgorithmId::PS256 => Some(jsonwebtoken::Algorithm::PS256),
        AlgorithmId::PS384 => Some(jsonwebtoken::Algorithm::PS384),
        AlgorithmId::PS512 => Some(jsonwebtoken::Algorithm::PS512),
        AlgorithmId::ES256 => Some(jsonwebtoken::Algorithm::ES256),
        AlgorithmId::ES384 => Some(jsonwebtoken::Algorithm::ES384),
        AlgorithmId::ES512 => None,
        AlgorithmId::EdDSA => Some(jsonwebtoken::Algorithm::EdDSA),
    }
}

/// The algorithm that `token` names, where the engine can sign and verify
/// with it: every algorithm of the table but ES512.
pub open spec fn usable_algorithm(token: Seq<char>) -> Option<AlgorithmId> {
    match parse_algorithm(token) {
        Some(alg) => if backend_algorithm_of(alg) is Some {
            Some(alg)
        } else {
            None
        },
        None => None,
    }
}

/// Reads an algorithm identifier and keeps it where the engine can sign and
/// verify with it.
pub fn resolve_algorithm(token: &str) -> (r: Option<(AlgorithmId, jsonwebtoken::Algorithm)>)
    ensures
        r matches Some((alg, backend)) ==> usable_algorithm(token@) == Some(alg)
            && backend_algorithm_of(alg) == Some(backend),
        r is None ==> usable_algorithm(token@) is None,
{
    match AlgorithmId::from_token(token) {
        Ok(alg) => match backend_algorithm(alg) {
            Some(backend) => Some((alg, backend)),
            None => None,
        },
        Err(_) => None,
    }
}

/// A signature has the length of one family only, as far as RSA and the two
/// curve families go: what is long enough for RSA is too long for a curve.
pub proof fn lemma_signature_length_tells_rsa_from_curves(
    signature: Seq<char>,
    one: AlgorithmId,
    other: AlgorithmId,
)
    requires
        backend_algorithm_of(one) matches Some(a) && has_signature_length(a, signature),
        backend_algorithm_of(other) matches Some(b) && has_signature_length(b, signature),
    ensures
        crate::registry::family_of(one) == KeyFamily::RSA <==> crate::registry::family_of(other)
            == KeyFamily::RSA,
{
}

/// The cryptographic library works with keys of the family that the table
/// gives for the algorithm.
pub proof fn lemma_backend_family_is_the_table_family(alg: AlgorithmId)
    ensures
        backend_algorithm_of(alg) matches Some(b) ==> backend_family_of(b) == Some(
            crate::registry::family_of(alg),
        ),
        backend_algorithm_of(alg) is None <==> alg == AlgorithmId::ES512,
{
}

/// Calls `jsonwebtoken::crypto::sign`, which digests `message` and signs the
/// digest. Trusted: a signature that it returns is base64url text without
/// padding, of the length that the algorithm asks for, and it is by the named
/// relation a signature of exactly this message, key and algorithm. Under an
/// algorithm that signs without chance the outcome is the named signature,
/// which depends on the three arguments and on nothing else. Under RSA-PSS
/// and ECDSA the signer draws random numbers, so two calls on one input may
/// return different signatures.
#[verifier::external_body]
pub(crate) fn sign_message(
    message: &[u8],
    key: &jsonwebtoken::EncodingKey,
    alg: jsonwebtoken::Algorithm,
) -> (r: Option<String>)
    ensures
        r matches Some(signature) ==> is_url_safe_text(signature@),
        r matches Some(signature) ==> is_signature_of(alg, message@, *key, signature@),
        r matches Some(signature) ==> has_signature_length(alg, signature@),
        signs_without_chance(alg) ==> (r matches Some(signature) ==> fixed_signature(
            alg,
            message@,
            *key,
        ) == Some(signature@)),
        signs_without_chance(alg) ==> (r is None ==> fixed_signature(alg, message@, *key) is None),
{
    jsonwebtoken::crypto::sign(message, key, alg).ok()
}

/// Calls `jsonwebtoken::crypto::verify`, which decodes `signature` and checks
/// it against `message`. Trusted: the outcome is the named verdict; it
/// depends on the four arguments and on nothing else. A signature that is
/// accepted has the length that the algorithm asks for. The call is made only
/// with a key that was built for the family of `alg`: with an elliptic-curve
/// or Edwards-curve algorithm and a key made of RSA components the outside
/// function does not return.
#[verifier::external_body]
pub(crate) fn verify_message(
    signature: &str,
    message: &[u8],
    key: &jsonwebtoken::DecodingKey,
    alg: jsonwebtoken::Algorithm,
) -> (r: Option<bool>)
    requires
        decoding_key_family(*key) == backend_family_of(alg),
    ensures
        r == signature_verdict(alg, signature@, message@, *key),
        r == Some(true) ==> has_signature_length(alg, signature@),
{
    jsonwebtoken::crypto::verify(signature, message, key, alg).ok()
}

} // verus!
