//! The verifier: checks a signature, given as segments or inside a compact
//! token, against a public key under the algorithm that the caller declares.
//!
//! The algorithm is never read out of the token. A key whose family is not
//! the family of the declared algorithm is refused before any signature is
//! checked.

use vstd::prelude::*;
use vstd::utf8::{encode_utf8, is_ascii_chars};
use crate::codec::{decode, is_url_safe_text, url_safe_decoding};
use crate::crypto::{
    backend_algorithm, backend_algorithm_of, has_signature_length, resolve_algorithm,
    signature_verdict, usable_algorithm, verify_message,
};
use crate::keys::{
    embedded_public_key_pem, holds_public_key_of_another_family, json_web_key,
    json_web_key_family, load_public, public_handle,
    KeyMaterial, KeyRole,
};
use crate::registry::{family_of, AlgorithmId};
use crate::token::{
    compact_parts, joined, lemma_compact_parts_of_joined, lemma_url_safe_text_is_plain,
    signing_input, signing_input_text, split_compact,
};

verus! {

/// Why a signature was not accepted.
#[derive(Clone, Copy, Debug, PartialEq, Eq, Structural)]
pub enum VerifyError {
    /// The algorithm is not in the table, or it is ES512.
    UnsupportedAlgorithm,
    /// The signature segment is not base64url text.
    MalformedBase64,
    /// The key is no public key of the algorithm's family.
    InvalidPublicKey,
    /// The signature does not belong to the signing input under this key and
    /// algorithm.
    SignatureMismatch,
    /// The compact token has no header and payload: it holds fewer than two
    /// dots.
    MalformedHeaderOrPayload,
}

/// What verification gives for each outcome of the cryptographic library:
/// success for a signature that it accepts, `SignatureMismatch` for one that
/// it rejects, `MalformedBase64` where it could not decode the signature.
pub open spec fn verdict_of(outcome: Option<bool>) -> Result<(), VerifyError> {
    match outcome {
        Some(true) => Ok(()),
        Some(false) => Err(VerifyError::SignatureMismatch),
        None => Err(VerifyError::MalformedBase64),
    }
}

/// The result of checking `signature` against `input` with a loaded key.
/// The checks come in this order, and the first that fails gives the error:
/// the algorithm, the key's role and family, the signature segment, and the
/// signature itself, on which the cryptographic library gives the verdict.
pub open spec fn key_verdict(
    input: Seq<char>,
    signature: Seq<char>,
    key: KeyMaterial,
    alg: AlgorithmId,
) -> Result<(), VerifyError> {
    match backend_algorithm_of(alg) {
        None => Err(VerifyError::UnsupportedAlgorithm),
        Some(backend) => if key@.role != KeyRole::Public || key@.family != family_of(alg) {
            Err(VerifyError::InvalidPublicKey)
        } else if url_safe_decoding(signature) is None {
            Err(VerifyError::MalformedBase64)
        } else {
            verdict_of(
                signature_verdict(backend, signature, encode_utf8(input), key.decoding_key()->0),
            )
        },
    }
}

/// The result of checking `signature` against `input` with the public key
/// in `public_key`, under the algorithm that `algorithm` names. The checks
/// come in this order, and the first that fails gives the error: the
/// algorithm (`UnsupportedAlgorithm`), the signature segment
/// (`MalformedBase64`), the key (`InvalidPublicKey`), and the signature
/// itself. The verdict is asked on exactly this signature and the bytes of
/// exactly this input, under the declared algorithm and the key of its
/// family that the text holds.
pub open spec fn text_verdict(
    input: Seq<char>,
    signature: Seq<char>,
    public_key: Seq<char>,
    algorithm: Seq<char>,
) -> Result<(), VerifyError> {
    match usable_algorithm(algorithm) {
        None => Err(VerifyError::UnsupportedAlgorithm),
        Some(alg) => if url_safe_decoding(signature) is None {
            Err(VerifyError::MalformedBase64)
        } else {
            match public_handle(public_key, family_of(alg)) {
                None => Err(VerifyError::InvalidPublicKey),
                Some(key) => verdict_of(
                    signature_verdict(
                        backend_algorithm_of(alg)->0,
                        signature,
                        encode_utf8(input),
                        key,
                    ),
                ),
            }
        },
    }
}

/// The result of checking a compact token. After the algorithm, the token is
/// looked at: one with a character outside ASCII is `MalformedBase64`, one
/// with fewer than two dots is `MalformedHeaderOrPayload`. Then its
/// signature segment is checked against its signing input, which is the
/// token up to its second dot as it stands.
pub open spec fn compact_verdict(
    token: Seq<char>,
    public_key: Seq<char>,
    algorithm: Seq<char>,
) -> Result<(), VerifyError> {
    if usable_algorithm(algorithm) is None {
        Err(VerifyError::UnsupportedAlgorithm)
    } else if !is_ascii_chars(token) {
        Err(VerifyError::MalformedBase64)
    } else {
        match compact_parts(token) {
            None => Err(VerifyError::MalformedHeaderOrPayload),
            Some((input, signature)) => text_verdict(input, signature, public_key, algorithm),
        }
    }
}

/// `signature` has the length that the algorithm which `algorithm` names
/// asks for.
pub open spec fn fits_algorithm(signature: Seq<char>, algorithm: Seq<char>) -> bool {
    usable_algorithm(algorithm) matches Some(alg) && has_signature_length(
        backend_algorithm_of(alg)->0,
        signature,
    )
}

/// The key in `public_key` is of a family other than the family of the
/// algorithm that `algorithm` names.
pub open spec fn key_is_of_another_family(public_key: Seq<char>, algorithm: Seq<char>) -> bool {
    usable_algorithm(algorithm) matches Some(alg) && holds_public_key_of_another_family(
        public_key,
        family_of(alg),
    )
}

/// Turns an outcome of the cryptographic library into a typed result.
pub fn verdict(outcome: Option<bool>) -> (r: Result<(), VerifyError>)
    ensures
        r == verdict_of(outcome),
{
    match outcome {
        Some(true) => Ok(()),
        Some(false) => Err(VerifyError::SignatureMismatch),
        None => Err(VerifyError::MalformedBase64),
    }
}

/// Checks `signature` against `input` with a loaded key.
///
/// Fails closed, in this order: ES512 is unsupported; a key that is not a
/// public key of the algorithm's family is refused; a signature segment that
/// is not base64url text is malformed. Only then is the cryptographic
/// library asked, and its verdict returned.
pub fn verify_with_key(input: &str, signature: &str, key: &KeyMaterial, alg: AlgorithmId) -> (r:
    Result<(), VerifyError>)
    ensures
        r == key_verdict(input@, signature@, *key, alg),
        r is Ok ==> has_signature_length(backend_algorithm_of(alg)->0, signature@),
{
    let backend = match backend_algorithm(alg) {
        Some(backend) => backend,
        None => {
            return Err(VerifyError::UnsupportedAlgorithm);
        },
    };
    if key.family() != alg.family() {
        return Err(VerifyError::InvalidPublicKey);
    }
    let verification_key = match key.verification_key() {
        Some(verification_key) => verification_key,
        None => {
            return Err(VerifyError::InvalidPublicKey);
        },
    };
    if decode(signature).is_err() {
        return Err(VerifyError::MalformedBase64);
    }
    proof {
        crate::crypto::lemma_backend_family_is_the_table_family(alg);
    }
    verdict(verify_message(signature, input.as_bytes(), verification_key, backend))
}

/// Checks `signature` against a signing input that is already in its
/// encoded form, with the public key in `public_key`.
pub fn check_input(input: &str, signature: &str, public_key: &str, algorithm: &str) -> (r: Result<
    (),
    VerifyError,
>)
    ensures
        r == text_verdict(input@, signature@, public_key@, algorithm@),
        key_is_of_another_family(public_key@, algorithm@) ==> r is Err,
        !fits_algorithm(signature@, algorithm@) ==> r is Err,
{
    let alg = match resolve_algorithm(algorithm) {
        Some((alg, _)) => alg,
        None => {
            return Err(VerifyError::UnsupportedAlgorithm);
        },
    };
    if decode(signature).is_err() {
        return Err(VerifyError::MalformedBase64);
    }
    let key = match load_public(public_key, alg.family()) {
        Ok(key) => key,
        Err(_) => {
            return Err(VerifyError::InvalidPublicKey);
        },
    };
    verify_with_key(input, signature, &key, alg)
}

/// Checks `signature` against the signing input of `header` and `payload`,
/// which is derived as the signer derives it.
pub fn check(header: &str, payload: &str, signature: &str, public_key: &str, algorithm: &str) -> (r:
    Result<(), VerifyError>)
    ensures
        r == text_verdict(
            signing_input_text(encode_utf8(header@), encode_utf8(payload@)),
            signature@,
            public_key@,
            algorithm@,
        ),
        key_is_of_another_family(public_key@, algorithm@) ==> r is Err,
        !fits_algorithm(signature@, algorithm@) ==> r is Err,
{
    let input = signing_input(header, payload);
    check_input(input.as_str(), signature, public_key, algorithm)
}

/// Checks the signature of a compact token. The signing input is the token
/// up to its second dot, as it stands; the signature segment is what follows
/// that dot.
pub fn check_compact(token: &str, public_key: &str, algorithm: &str) -> (r: Result<(), VerifyError>)
    ensures
        r == compact_verdict(token@, public_key@, algorithm@),
        key_is_of_another_family(public_key@, algorithm@) ==> r is Err,
        compact_parts(token@) matches Some((_, signature)) ==> (!fits_algorithm(
            signature,
            algorithm@,
        ) ==> r is Err),
{
    if resolve_algorithm(algorithm).is_none() {
        return Err(VerifyError::UnsupportedAlgorithm);
    }
    if !token.is_ascii() {
        return Err(VerifyError::MalformedBase64);
    }
    match split_compact(token) {
        Some((input, signature)) => check_input(input, signature, public_key, algorithm),
        None => Err(VerifyError::MalformedHeaderOrPayload),
    }
}

/// Whether `signature` is a valid signature of `header` and `payload` under
/// the public key and the algorithm. Every failure is `false`.
pub fn verify(header: &str, payload: &str, signature: &str, public_key: &str, algorithm: &str) -> (ok:
    bool)
    ensures
        ok == text_verdict(
            signing_input_text(encode_utf8(header@), encode_utf8(payload@)),
            signature@,
            public_key@,
            algorithm@,
        ).is_ok(),
        key_is_of_another_family(public_key@, algorithm@) ==> !ok,
        !fits_algorithm(signature@, algorithm@) ==> !ok,
{
    check(header, payload, signature, public_key, algorithm).is_ok()
}

/// Whether the compact token carries a valid signature under the public key
/// and the algorithm. Every failure is `false`.
pub fn verify_compact(token: &str, public_key: &str, algorithm: &str) -> (ok: bool)
    ensures
        ok == compact_verdict(token@, public_key@, algorithm@).is_ok(),
        key_is_of_another_family(public_key@, algorithm@) ==> !ok,
        compact_parts(token@) matches Some((_, signature)) ==> (!fits_algorithm(
            signature,
            algorithm@,
        ) ==> !ok),
{
    check_compact(token, public_key, algorithm).is_ok()
}

/// `verify_compact` under the name of the command that the desktop shell
/// offers.
pub fn signature_is_valid(jwt: &str, public_key: &str, algorithm: &str) -> (ok: bool)
    ensures
        ok == compact_verdict(jwt@, public_key@, algorithm@).is_ok(),
        key_is_of_another_family(public_key@, algorithm@) ==> !ok,
        compact_parts(jwt@) matches Some((_, signature)) ==> (!fits_algorithm(
            signature,
            algorithm@,
        ) ==> !ok),
{
    verify_compact(jwt, public_key, algorithm)
}

/// Fail-closed on the family: with a key that is not a public key of the
/// algorithm's family, no signature is accepted, and the cryptographic
/// library is not asked.
pub proof fn lemma_family_mismatch_is_refused(
    input: Seq<char>,
    signature: Seq<char>,
    key: KeyMaterial,
    alg: AlgorithmId,
)
    requires
        key@.role != KeyRole::Public || key@.family != family_of(alg),
    ensures
        key_verdict(input, signature, key, alg) == Err::<(), VerifyError>(
            if alg == AlgorithmId::ES512 {
                VerifyError::UnsupportedAlgorithm
            } else {
                VerifyError::InvalidPublicKey
            },
        ),
{
}

/// Fail-closed on the family, for a key given as a JSON Web Key: where the
/// parameters of the JSON Web Key are not of the family of the declared
/// algorithm, no signature is accepted.
pub proof fn lemma_json_web_key_of_another_family_is_refused(
    input: Seq<char>,
    signature: Seq<char>,
    public_key: Seq<char>,
    algorithm: Seq<char>,
)
    requires
        ({
            &&& usable_algorithm(algorithm) matches Some(alg)
            &&& json_web_key(public_key) matches Some(jwk)
            &&& json_web_key_family(jwk) != Some(family_of(alg))
        }),
    ensures
        text_verdict(input, signature, public_key, algorithm) is Err,
        text_verdict(input, signature, public_key, algorithm) != Err::<(), VerifyError>(
            VerifyError::SignatureMismatch,
        ),
{
}

/// A signature is accepted only under an algorithm that the engine can use,
/// only as base64url text, only with a key of the algorithm's family, and
/// only on the verdict of the cryptographic library for exactly that
/// signature and the bytes of exactly that input.
pub proof fn lemma_accepted_means_verified(
    input: Seq<char>,
    signature: Seq<char>,
    public_key: Seq<char>,
    algorithm: Seq<char>,
)
    requires
        text_verdict(input, signature, public_key, algorithm) is Ok,
    ensures
        ({
            &&& usable_algorithm(algorithm) matches Some(alg)
            &&& url_safe_decoding(signature) is Some
            &&& public_handle(public_key, family_of(alg)) matches Some(key)
            &&& signature_verdict(backend_algorithm_of(alg)->0, signature, encode_utf8(input), key)
                == Some(true)
        }),
{
}

/// The compact form and the segment form agree: for a header segment and a
/// payload segment of base64url text and an ASCII signature segment,
/// checking the compact token that the three make up gives what checking the
/// signature segment against the two segments joined by a dot gives.
pub proof fn lemma_compact_form_agrees_with_segments(
    header: Seq<char>,
    payload: Seq<char>,
    signature: Seq<char>,
    public_key: Seq<char>,
    algorithm: Seq<char>,
)
    requires
        is_url_safe_text(header),
        is_url_safe_text(payload),
        is_ascii_chars(signature),
    ensures
        compact_verdict(joined(joined(header, payload), signature), public_key, algorithm)
            == text_verdict(joined(header, payload), signature, public_key, algorithm),
{
    let token = joined(joined(header, payload), signature);
    lemma_url_safe_text_is_plain(header);
    lemma_url_safe_text_is_plain(payload);
    lemma_compact_parts_of_joined(header, payload, signature);
    assert forall|i: int| 0 <= i < token.len() implies '\0' <= #[trigger] token[i] <= '\u{7f}' by {}
}

/// A certificate verifies as its embedded public key does: where neither
/// text is a JSON Web Key, `certificate` is a PEM X.509 certificate whose
/// embedded key, written as a PEM public key, is `raw_key`, and `raw_key` is
/// itself no certificate, every signature is checked with the one as with
/// the other.
pub proof fn lemma_certificate_verifies_as_its_key(
    input: Seq<char>,
    signature: Seq<char>,
    certificate: Seq<char>,
    raw_key: Seq<char>,
    algorithm: Seq<char>,
)
    requires
        json_web_key(certificate) is None,
        json_web_key(raw_key) is None,
        embedded_public_key_pem(encode_utf8(certificate)) == Some(encode_utf8(raw_key)),
        embedded_public_key_pem(encode_utf8(raw_key)) is None,
    ensures
        text_verdict(input, signature, certificate, algorithm) == text_verdict(
            input,
            signature,
            raw_key,
            algorithm,
        ),
{
}

} // verus!
