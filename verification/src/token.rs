//! The signing input and the compact form of a token.
//!
//! The signing input of a header and a payload is the text
//! `base64url(header) + "." + base64url(payload)`. A compact token is
//! `header.payload.signature`, each segment base64url text; its signing
//! input is its first two segments as they stand.

use vstd::prelude::*;
use vstd::utf8::{encode_utf8, is_ascii_chars};
use crate::codec::{encode, is_url_safe_text, url_safe_decoding, url_safe_encoding};

verus! {

/// No character of `text` is a dot.
pub open spec fn has_no_dot(text: Seq<char>) -> bool {
    forall|i: int| 0 <= i < text.len() ==> #[trigger] text[i] != '.'
}

/// Two segments with a dot between them.
pub open spec fn joined(left: Seq<char>, right: Seq<char>) -> Seq<char> {
    left + seq!['.'] + right
}

/// The signing input of a header and a payload, each taken as bytes.
pub open spec fn signing_input_text(header: Seq<u8>, payload: Seq<u8>) -> Seq<char> {
    joined(url_safe_encoding(header), url_safe_encoding(payload))
}

/// `input` carries `header` and `payload`: it holds a dot, what stands
/// before its first dot decodes to `header`, and what stands after it
/// decodes to `payload`.
pub open spec fn carries(input: Seq<char>, header: Seq<u8>, payload: Seq<u8>) -> bool {
    let dot = dot_from(input, 0);
    &&& dot < input.len()
    &&& url_safe_decoding(input.subrange(0, dot)) == Some(header)
    &&& url_safe_decoding(input.subrange(dot + 1, input.len() as int)) == Some(payload)
}

/// Where the first dot of `text` at or after `from` stands: its index, or the
/// length of `text` where there is none.
pub open spec fn dot_from(text: Seq<char>, from: int) -> int
    decreases text.len() - from,
{
    if from < 0 || from >= text.len() {
        text.len() as int
    } else if text[from] == '.' {
        from
    } else {
        dot_from(text, from + 1)
    }
}

/// The two parts of a compact token: its signing input, which runs to its
/// second dot, and its signature segment, which is everything after that
/// dot. `None` where `token` has fewer than two dots.
pub open spec fn compact_parts(token: Seq<char>) -> Option<(Seq<char>, Seq<char>)> {
    let first = dot_from(token, 0);
    let second = dot_from(token, first + 1);
    if second < token.len() {
        Some((token.subrange(0, second), token.subrange(second + 1, token.len() as int)))
    } else {
        None
    }
}

/// `dot_from` gives the first dot at or after `from`, and nothing before it
/// is a dot.
pub proof fn lemma_dot_from(text: Seq<char>, from: int)
    requires
        0 <= from <= text.len(),
    ensures
        from <= dot_from(text, from) <= text.len(),
        dot_from(text, from) < text.len() ==> text[dot_from(text, from)] == '.',
        forall|j: int| from <= j < dot_from(text, from) ==> #[trigger] text[j] != '.',
    decreases text.len() - from,
{
    if from < text.len() && text[from] != '.' {
        lemma_dot_from(text, from + 1);
    }
}

/// A dot that nothing but other characters precede is the one that
/// `dot_from` finds.
pub proof fn lemma_dot_from_is(text: Seq<char>, from: int, at: int)
    requires
        0 <= from <= at < text.len(),
        text[at] == '.',
        forall|j: int| from <= j < at ==> #[trigger] text[j] != '.',
    ensures
        dot_from(text, from) == at,
    decreases at - from,
{
    if from < at {
        lemma_dot_from_is(text, from + 1, at);
    }
}

/// Text in the URL-safe alphabet is ASCII and holds no dot.
pub proof fn lemma_url_safe_text_is_plain(text: Seq<char>)
    requires
        is_url_safe_text(text),
    ensures
        is_ascii_chars(text),
        has_no_dot(text),
{
    assert forall|i: int| 0 <= i < text.len() implies '\0' <= #[trigger] text[i] <= '\u{7f}'
        && text[i] != '.' by {}
}

/// The compact form and the segment form agree on the signing input: a token
/// put together from a header segment and a payload segment without dots, and
/// any signature segment, splits into the two segments joined by a dot, and
/// that signature segment.
pub proof fn lemma_compact_parts_of_joined(
    header: Seq<char>,
    payload: Seq<char>,
    signature: Seq<char>,
)
    requires
        has_no_dot(header),
        has_no_dot(payload),
    ensures
        compact_parts(joined(joined(header, payload), signature)) == Some(
            (joined(header, payload), signature),
        ),
{
    let input = joined(header, payload);
    let token = joined(input, signature);
    let first = header.len() as int;
    let second = input.len() as int;
    assert forall|j: int| 0 <= j < second && j != first implies #[trigger] token[j] != '.' by {}
    lemma_dot_from_is(token, 0, first);
    lemma_dot_from_is(token, first + 1, second);
}

/// A token has a signing input and a signature segment exactly when it holds
/// two dots; the signing input then holds exactly one.
pub proof fn lemma_compact_parts_rejoin(token: Seq<char>)
    ensures
        compact_parts(token) matches Some((input, signature)) ==> token == joined(input, signature)
            && dot_from(input, 0) < input.len(),
{
    let first = dot_from(token, 0);
    lemma_dot_from(token, 0);
    if first < token.len() {
        lemma_dot_from(token, first + 1);
        let second = dot_from(token, first + 1);
        if second < token.len() {
            let input = token.subrange(0, second);
            assert forall|j: int| 0 <= j < first implies #[trigger] input[j] != '.' by {}
            lemma_dot_from_is(input, 0, first);
        }
    }
}

/// One signing input belongs to one header and one payload: a change to
/// either gives another signing input.
pub proof fn lemma_signing_input_belongs_to_one_message(
    input: Seq<char>,
    header: Seq<u8>,
    payload: Seq<u8>,
    other_header: Seq<u8>,
    other_payload: Seq<u8>,
)
    requires
        carries(input, header, payload),
        carries(input, other_header, other_payload),
    ensures
        header == other_header,
        payload == other_payload,
{
}

/// Puts two segments together with a dot between them.
pub fn join_segments(left: &str, right: &str) -> (out: String)
    ensures
        out@ == joined(left@, right@),
{
    proof {
        reveal_strlit(".");
    }
    let mut out = left.to_owned();
    out.append(".");
    out.append(right);
    out
}

/// The signing input of `header` and `payload`, which are taken as opaque
/// bytes: neither is read as JSON.
pub fn signing_input(header: &str, payload: &str) -> (out: String)
    ensures
        out@ == signing_input_text(encode_utf8(header@), encode_utf8(payload@)),
        is_ascii_chars(out@),
        carries(out@, encode_utf8(header@), encode_utf8(payload@)),
{
    let head = encode(header.as_bytes());
    let body = encode(payload.as_bytes());
    let out = join_segments(head.as_str(), body.as_str());
    proof {
        lemma_url_safe_text_is_plain(head@);
        lemma_url_safe_text_is_plain(body@);
        assert forall|i: int| 0 <= i < out@.len() implies '\0' <= #[trigger] out@[i] <= '\u{7f}'
            && (i < head@.len() ==> out@[i] != '.') by {}
        lemma_dot_from_is(out@, 0, head@.len() as int);
        assert(out@.subrange(0, head@.len() as int) =~= head@);
        assert(out@.subrange(head@.len() as int + 1, out@.len() as int) =~= body@);
    }
    out
}

/// The compact token of a header, a payload and a signature segment. It
/// splits back into the signing input of the header and the payload, and the
/// segment.
pub fn compact_token(header: &str, payload: &str, signature: &str) -> (out: String)
    ensures
        out@ == joined(
            signing_input_text(encode_utf8(header@), encode_utf8(payload@)),
            signature@,
        ),
        compact_parts(out@) == Some(
            (signing_input_text(encode_utf8(header@), encode_utf8(payload@)), signature@),
        ),
{
    let head = encode(header.as_bytes());
    let body = encode(payload.as_bytes());
    let input = join_segments(head.as_str(), body.as_str());
    let out = join_segments(input.as_str(), signature);
    proof {
        lemma_url_safe_text_is_plain(head@);
        lemma_url_safe_text_is_plain(body@);
        lemma_compact_parts_of_joined(head@, body@, signature@);
    }
    out
}

/// The index of the first dot of ASCII `text` at or after `from`, or the
/// length of `text` where there is none.
fn find_dot(text: &str, from: usize) -> (at: usize)
    requires
        is_ascii_chars(text@),
        from <= text@.len(),
    ensures
        at == dot_from(text@, from as int),
        from <= at <= text@.len(),
{
    broadcast use vstd::utf8::is_ascii_chars_encode_utf8;

    let bytes = text.as_bytes();
    let mut i: usize = from;
    while i < bytes.len()
        invariant
            from <= i <= bytes.len(),
            bytes@.len() == text@.len(),
            is_ascii_chars(text@),
            bytes@ == encode_utf8(text@),
            forall|j: int| from <= j < i ==> #[trigger] text@[j] != '.',
        decreases bytes.len() - i,
    {
        let b = bytes[i];
        proof {
            vstd::utf8::is_ascii_chars_encode_utf8(text@);
        }
        if b == 46u8 {
            proof {
                lemma_dot_from_is(text@, from as int, i as int);
            }
            return i;
        }
        i = i + 1;
    }
    proof {
        lemma_dot_from(text@, from as int);
    }
    i
}

/// Splits a compact token into its signing input and its signature segment.
/// A token that holds a character outside ASCII, or fewer than two dots, has
/// no parts.
pub fn split_compact(token: &str) -> (r: Option<(&str, &str)>)
    ensures
        r matches Some((input, signature)) ==> is_ascii_chars(token@) && compact_parts(token@)
            == Some((input@, signature@)),
        r is None ==> !is_ascii_chars(token@) || compact_parts(token@) is None,
{
    if !token.is_ascii() {
        return None;
    }
    broadcast use vstd::utf8::is_ascii_chars_encode_utf8;

    let len = token.as_bytes().len();
    let first = find_dot(token, 0);
    if first >= len {
        return None;
    }
    let second = find_dot(token, first + 1);
    if second >= len {
        return None;
    }
    let input = token.substring_ascii(0, second);
    let signature = token.substring_ascii(second + 1, len);
    Some((input, signature))
}

} // verus!
