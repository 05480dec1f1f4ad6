//! The signer: resolves the algorithm, loads the private key, derives the
//! signing input and signs it.
//!
//! The header and the payload are signed as the bytes they are; neither is
//! read as JSON.

use vstd::prelude::*;
use vstd::utf8::encode_utf8;
use crate::codec::{is_url_safe_text, sentinel};
use crate::crypto::{
    backend_algorithm, backend_algorithm_of, fixed_signature, is_signature_of, resolve_algorithm,
    has_signature_length, sign_message, signs_without_chance, usable_algorithm,
};
use crate::keys::{
    holds_private_key_of_another_family, load_private, private_handle, KeyMaterial, KeyRole,
};
use crate::registry::{family_of, AlgorithmId};
use crate::token::{signing_input, signing_input_text};

verus! {

/// Why nothing was signed.
#[derive(Clone, Copy, Debug, PartialEq, Eq, Structural)]
pub enum SignError {
    /// The algorithm is not in the table, or it is ES512.
    UnsupportedAlgorithm,
    /// The key is no private key of the algorithm's family, or the
    /// cryptographic library does not sign with it.
    InvalidKey,
}

/// What a signing result holds, with the signature as its characters.
pub open spec fn result_text(r: Result<String, SignError>) -> Result<Seq<char>, SignError> {
    match r {
        Ok(signature) => Ok(signature@),
        Err(e) => Err(e),
    }
}

/// What a signing result is reported as where only text can be returned:
/// the signature, or the sentinel for every failure.
pub open spec fn command_text(r: Result<Seq<char>, SignError>) -> Seq<char> {
    match r {
        Ok(signature) => signature,
        Err(_) => sentinel(),
    }
}

/// `signature` is a signature that the cryptographic library made of
/// exactly this message with exactly this key under exactly this algorithm:
/// base64url text, of the length that the algorithm asks for.
pub open spec fn is_signed(
    signature: Seq<char>,
    backend: jsonwebtoken::Algorithm,
    message: Seq<u8>,
    key: jsonwebtoken::EncodingKey,
) -> bool {
    &&& is_url_safe_text(signature)
    &&& is_signature_of(backend, message, key, signature)
    &&& has_signature_length(backend, signature)
}

/// `r` is a result of handing `message`, `key` and `backend` to the
/// cryptographic library. A signature is one of exactly this message under
/// exactly this key and algorithm, and the one failure is `InvalidKey`.
/// Under an algorithm that signs without chance the result is fixed: the
/// named signature, or `InvalidKey` where there is none.
pub open spec fn is_signing_outcome(
    r: Result<Seq<char>, SignError>,
    backend: jsonwebtoken::Algorithm,
    message: Seq<u8>,
    key: jsonwebtoken::EncodingKey,
) -> bool {
    &&& r matches Ok(signature) ==> is_signed(signature, backend, message, key)
    &&& r matches Err(e) ==> e == SignError::InvalidKey
    &&& signs_without_chance(backend) ==> r == match fixed_signature(backend, message, key) {
        Some(signature) => Ok::<Seq<char>, SignError>(signature),
        None => Err::<Seq<char>, SignError>(SignError::InvalidKey),
    }
}

/// `r` is a result of signing `input` with a loaded key. The checks come in
/// this order, and the first that fails gives the error: the algorithm
/// (`UnsupportedAlgorithm` for ES512), the key's role and family
/// (`InvalidKey`). Then the bytes of `input`, the handle of the key and the
/// declared algorithm are handed to the cryptographic library.
pub open spec fn is_key_signing_result(
    r: Result<Seq<char>, SignError>,
    input: Seq<char>,
    key: KeyMaterial,
    alg: AlgorithmId,
) -> bool {
    match backend_algorithm_of(alg) {
        None => r == Err::<Seq<char>, SignError>(SignError::UnsupportedAlgorithm),
        Some(backend) => if key@.role != KeyRole::Private || key@.family != family_of(alg) {
            r == Err::<Seq<char>, SignError>(SignError::InvalidKey)
        } else {
            is_signing_outcome(r, backend, encode_utf8(input), key.encoding_key()->0)
        },
    }
}

/// `r` is a result of signing a header and a payload with the private key in
/// `private_key` under the algorithm that `algorithm` names. The checks come
/// in this order, and the first that fails gives the error: the algorithm
/// (`UnsupportedAlgorithm`), the key (`InvalidKey` where the text holds no
/// private key of the algorithm's family). Then the bytes of the signing
/// input of the header and the payload as they stand, the key that the text
/// holds and the declared algorithm are handed to the cryptographic library.
pub open spec fn is_signing_result(
    r: Result<Seq<char>, SignError>,
    header: Seq<char>,
    payload: Seq<char>,
    private_key: Seq<char>,
    algorithm: Seq<char>,
) -> bool {
    match usable_algorithm(algorithm) {
        None => r == Err::<Seq<char>, SignError>(SignError::UnsupportedAlgorithm),
        Some(alg) => match private_handle(encode_utf8(private_key), family_of(alg)) {
            None => r == Err::<Seq<char>, SignError>(SignError::InvalidKey),
            Some(key) => is_signing_outcome(
                r,
                backend_algorithm_of(alg)->0,
                encode_utf8(signing_input_text(encode_utf8(header), encode_utf8(payload))),
                key,
            ),
        },
    }
}

/// `out` is an output of the signing command: what `command_text` makes of
/// a signing result. It is the sentinel where the algorithm cannot be used
/// or the text holds no private key of its family. With such a key it is
/// the sentinel or a signature of the signing input under that key and the
/// declared algorithm, and under an algorithm that signs without chance it
/// is the named signature, or the sentinel where there is none.
pub open spec fn is_command_output(
    out: Seq<char>,
    header: Seq<char>,
    payload: Seq<char>,
    private_key: Seq<char>,
    algorithm: Seq<char>,
) -> bool {
    match usable_algorithm(algorithm) {
        None => out == sentinel(),
        Some(alg) => match private_handle(encode_utf8(private_key), family_of(alg)) {
            None => out == sentinel(),
            Some(key) => {
                let backend = backend_algorithm_of(alg)->0;
                let message = encode_utf8(
                    signing_input_text(encode_utf8(header), encode_utf8(payload)),
                );
                &&& out == sentinel() || is_signed(out, backend, message, key)
                &&& signs_without_chance(backend) ==> out == match fixed_signature(
                    backend,
                    message,
                    key,
                ) {
                    Some(signature) => signature,
                    None => sentinel(),
                }
            },
        },
    }
}

/// What signing gives for each outcome of the cryptographic library: its
/// signature, or `InvalidKey` where it returned none.
pub fn signature_or_error(outcome: Option<String>) -> (r: Result<String, SignError>)
    ensures
        outcome matches Some(signature) ==> r == Ok::<String, SignError>(signature),
        outcome is None ==> r == Err::<String, SignError>(SignError::InvalidKey),
{
    match outcome {
        Some(signature) => Ok(signature),
        None => Err(SignError::InvalidKey),
    }
}

/// What a signing result is reported as where only text can be returned:
/// the signature, or the sentinel `"ERROR"` for every failure.
pub fn signature_or_sentinel(result: Result<String, SignError>) -> (out: String)
    ensures
        out@ == command_text(result_text(result)),
{
    match result {
        Ok(signature) => signature,
        Err(_) => "ERROR".to_owned(),
    }
}

/// Signs `input` with a loaded key.
///
/// Fails closed: ES512 is unsupported, and a key that is not a private key of
/// the algorithm's family is refused before anything is signed. Past those
/// checks the cryptographic library signs the bytes of `input` under the
/// declared algorithm. Under RS256, RS384, RS512 and EdDSA the result is
/// fixed by the input, the key and the algorithm.
pub fn sign_with_key(input: &str, key: &KeyMaterial, alg: AlgorithmId) -> (r: Result<
    String,
    SignError,
>)
    ensures
        is_key_signing_result(result_text(r), input@, *key, alg),
{
    let backend = match backend_algorithm(alg) {
        Some(backend) => backend,
        None => {
            return Err(SignError::UnsupportedAlgorithm);
        },
    };
    if key.family() != alg.family() {
        return Err(SignError::InvalidKey);
    }
    match key.signing_key() {
        Some(signing_key) => signature_or_error(sign_message(input.as_bytes(), signing_key, backend)),
        None => Err(SignError::InvalidKey),
    }
}

/// Signs the signing input of `header` and `payload` with the private key in
/// `private_key`, a PEM text, under the algorithm that `algorithm` names.
///
/// `UnsupportedAlgorithm` is returned exactly where `algorithm` names no
/// algorithm that the engine can use; every other failure is `InvalidKey`,
/// which is owed where `private_key` holds no private key of the algorithm's
/// family, as where it holds a key of another family. With a key of the
/// family, the cryptographic library signs the signing input under the
/// declared algorithm, whatever the header says of an algorithm. Under
/// RS256, RS384, RS512 and EdDSA the result is fixed by the arguments; under
/// the other algorithms the signer draws random numbers, and may refuse the
/// key.
pub fn sign(header: &str, payload: &str, private_key: &str, algorithm: &str) -> (r: Result<
    String,
    SignError,
>)
    ensures
        is_signing_result(result_text(r), header@, payload@, private_key@, algorithm@),
        usable_algorithm(algorithm@) matches Some(alg) ==> (holds_private_key_of_another_family(
            private_key@,
            family_of(alg),
        ) ==> r == Err::<String, SignError>(SignError::InvalidKey)),
{
    let alg = match resolve_algorithm(algorithm) {
        Some((alg, _)) => alg,
        None => {
            return Err(SignError::UnsupportedAlgorithm);
        },
    };
    let key = match load_private(private_key, alg.family()) {
        Ok(key) => key,
        Err(_) => {
            return Err(SignError::InvalidKey);
        },
    };
    let input = signing_input(header, payload);
    sign_with_key(input.as_str(), &key, alg)
}

/// `sign` as a command that returns text: the signature, or the sentinel
/// `"ERROR"` for every failure.
///
/// The sentinel is returned where `algorithm` names no algorithm that the
/// engine can use, and where `private_key` holds no private key of the
/// algorithm's family, as where it holds a key of another family. Under
/// RS256, RS384, RS512 and EdDSA the output is fixed by the arguments: the
/// signature of the signing input under the key and the declared algorithm,
/// or the sentinel where the cryptographic library does not sign with the
/// key.
pub fn gen_sign(header: &str, payload: &str, private_key: &str, algorithm: &str) -> (out: String)
    ensures
        is_command_output(out@, header@, payload@, private_key@, algorithm@),
        usable_algorithm(algorithm@) matches Some(alg) ==> (holds_private_key_of_another_family(
            private_key@,
            family_of(alg),
        ) ==> out@ == sentinel()),
{
    proof {
        reveal_strlit("ERROR");
    }
    signature_or_sentinel(sign(header, payload, private_key, algorithm))
}

} // verus!
