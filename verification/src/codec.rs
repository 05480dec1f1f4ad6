//! The base64url codec: URL-safe alphabet, no padding characters.

use vstd::prelude::*;
use vstd::utf8::{decode_utf8, encode_utf8, valid_utf8};

verus! {

/// `base64::DecodeError`, why a text was rejected; opaque here.
#[verifier::external_type_specification]
#[verifier::external_body]
pub struct ExDecodeError(base64::DecodeError);

/// The text that `base64::encode_config` gives for `data` under
/// `URL_SAFE_NO_PAD`.
pub uninterp spec fn url_safe_encoding(data: Seq<u8>) -> Seq<char>;

/// The bytes that `base64::decode_config` gives for `text` under
/// `URL_SAFE_NO_PAD`, or `None` where it rejects `text`.
pub uninterp spec fn url_safe_decoding(text: Seq<char>) -> Option<Seq<u8>>;

/// The 64 symbols of the URL-safe alphabet.
pub open spec fn is_url_safe_symbol(c: char) -> bool {
    ||| 'A' <= c <= 'Z'
    ||| 'a' <= c <= 'z'
    ||| '0' <= c <= '9'
    ||| c == '-'
    ||| c == '_'
}

/// Every character of `text` is a symbol of the URL-safe alphabet.
pub open spec fn is_url_safe_text(text: Seq<char>) -> bool {
    forall|i: int| 0 <= i < text.len() ==> is_url_safe_symbol(#[trigger] text[i])
}

/// What the decoder never takes is left out: every character of `text` is a
/// symbol of the URL-safe alphabet or the padding character `=`, and the
/// length of `text` does not leave the remainder 1 when divided by 4.
pub open spec fn may_be_decoded(text: Seq<char>) -> bool {
    &&& forall|i: int|
        0 <= i < text.len() ==> is_url_safe_symbol(#[trigger] text[i]) || text[i] == '='
    &&& text.len() % 4 != 1
}

/// The number of characters that encode `n` bytes without padding.
pub open spec fn encoded_len(n: nat) -> nat {
    (4 * n + 2) / 3
}

/// What a failure is reported as where only text can be returned.
pub open spec fn sentinel() -> Seq<char> {
    "ERROR"@
}

/// The text carried by decoded bytes, or the sentinel where there are no
/// bytes or they are not UTF-8.
pub open spec fn text_or_sentinel(decoded: Option<Seq<u8>>) -> Seq<char> {
    match decoded {
        Some(bytes) => if valid_utf8(bytes) {
            decode_utf8(bytes)
        } else {
            sentinel()
        },
        None => sentinel(),
    }
}

/// Why a decoding failed.
#[derive(Clone, Copy, Debug, PartialEq, Eq, Structural)]
pub enum CodecError {
    /// The input is not base64url text.
    MalformedBase64,
    /// The input is base64url text, but the bytes it carries are not UTF-8.
    InvalidUtf8,
}

/// The typed outcome of decoding `text` and reading the bytes as UTF-8.
pub open spec fn decoded_text(text: Seq<char>) -> Result<Seq<char>, CodecError> {
    match url_safe_decoding(text) {
        None => Err(CodecError::MalformedBase64),
        Some(bytes) => if valid_utf8(bytes) {
            Ok(decode_utf8(bytes))
        } else {
            Err(CodecError::InvalidUtf8)
        },
    }
}

/// Calls `base64::encode_config` with `URL_SAFE_NO_PAD`. Trusted: the result
/// is the named encoding of `data`; it is made of symbols of the URL-safe
/// alphabet only (the configuration adds no padding), four for every three
/// bytes and two or three for a last one or two; and decoding it under the
/// same configuration gives `data` back.
#[verifier::external_body]
fn encode_base64_url_safe_helper(data: &[u8]) -> (out: String)
    ensures
        out@ == url_safe_encoding(data@),
        is_url_safe_text(out@),
        out@.len() == encoded_len(data@.len()),
        url_safe_decoding(out@) == Some(data@),
{
    base64::encode_config(data, base64::URL_SAFE_NO_PAD)
}

/// Calls `base64::decode_config` with `URL_SAFE_NO_PAD`. Trusted: the outcome
/// is the named decoding of `data`. The decoder rejects a text that holds a
/// character other than a symbol of the alphabet or `=`, and one whose
/// length leaves the remainder 1 when divided by 4.
#[verifier::external_body]
fn decode_base64_url_safe_helper(data: &str) -> (r: Result<Vec<u8>, base64::DecodeError>)
    ensures
        r matches Ok(bytes) ==> url_safe_decoding(data@) == Some(bytes@),
        r is Err ==> url_safe_decoding(data@) is None,
        r is Ok ==> may_be_decoded(data@),
{
    base64::decode_config(data, base64::URL_SAFE_NO_PAD)
}

/// Calls `String::from_utf8`. Trusted: it succeeds exactly on valid UTF-8,
/// and the string then holds the characters that the bytes encode.
#[verifier::external_body]
fn string_from_utf8(bytes: Vec<u8>) -> (r: Option<String>)
    ensures
        r matches Some(s) ==> valid_utf8(bytes@) && s@ == decode_utf8(bytes@),
        r is None ==> !valid_utf8(bytes@),
{
    String::from_utf8(bytes).ok()
}

/// Encodes `data`. Never fails; decoding the result gives `data` back.
pub fn encode(data: &[u8]) -> (out: String)
    ensures
        out@ == url_safe_encoding(data@),
        is_url_safe_text(out@),
        out@.len() == encoded_len(data@.len()),
        url_safe_decoding(out@) == Some(data@),
{
    encode_base64_url_safe_helper(data)
}

/// Decodes `text` to the bytes it carries.
pub fn decode(text: &str) -> (r: Result<Vec<u8>, CodecError>)
    ensures
        r matches Ok(bytes) ==> url_safe_decoding(text@) == Some(bytes@),
        r matches Err(e) ==> e == CodecError::MalformedBase64 && url_safe_decoding(text@) is None,
        !may_be_decoded(text@) ==> r is Err,
{
    match decode_base64_url_safe_helper(text) {
        Ok(bytes) => Ok(bytes),
        Err(_) => Err(CodecError::MalformedBase64),
    }
}

/// Decodes `text` and reads the bytes as UTF-8, telling the two causes of
/// failure apart.
pub fn decode_text(text: &str) -> (r: Result<String, CodecError>)
    ensures
        r matches Ok(s) ==> decoded_text(text@) == Ok::<Seq<char>, CodecError>(s@),
        r matches Err(e) ==> decoded_text(text@) == Err::<Seq<char>, CodecError>(e),
        !may_be_decoded(text@) ==> r == Err::<String, CodecError>(CodecError::MalformedBase64),
{
    match decode_base64_url_safe_helper(text) {
        Ok(bytes) => match string_from_utf8(bytes) {
            Some(s) => Ok(s),
            None => Err(CodecError::InvalidUtf8),
        },
        Err(_) => Err(CodecError::MalformedBase64),
    }
}

/// Collapses a decoding outcome to text: the decoded bytes read as UTF-8, or
/// the sentinel `"ERROR"` where decoding failed or the bytes are not UTF-8.
pub fn handle_decode_result(result: Result<Vec<u8>, base64::DecodeError>) -> (out: String)
    ensures
        out@ == text_or_sentinel(
            match result {
                Ok(bytes) => Some(bytes@),
                Err(_) => None,
            },
        ),
{
    match result {
        Ok(decoded) => match string_from_utf8(decoded) {
            Some(s) => s,
            None => "ERROR".to_owned(),
        },
        Err(_) => "ERROR".to_owned(),
    }
}

/// Encodes the UTF-8 bytes of `data`.
pub fn encode_base64_url_safe(data: &str) -> (out: String)
    ensures
        out@ == url_safe_encoding(encode_utf8(data@)),
        is_url_safe_text(out@),
        out@.len() == encoded_len(encode_utf8(data@).len()),
        decoded_text(out@) == Ok::<Seq<char>, CodecError>(data@),
{
    broadcast use {vstd::utf8::encode_utf8_valid_utf8, vstd::utf8::encode_utf8_decode_utf8};

    encode_base64_url_safe_helper(data.as_bytes())
}

/// Decodes `data` to text; the sentinel `"ERROR"` stands for every failure.
pub fn decode_base64_url_safe(data: &str) -> (out: String)
    ensures
        out@ == text_or_sentinel(url_safe_decoding(data@)),
        !may_be_decoded(data@) ==> out@ == sentinel(),
{
    handle_decode_result(decode_base64_url_safe_helper(data))
}

} // verus!
