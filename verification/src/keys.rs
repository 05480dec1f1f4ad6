//! The key material loader: reads a textual key into a handle that is tagged
//! with its family and with whether it signs or verifies.
//!
//! A private key is a single PEM document, read as a key of the family that
//! the caller expects. A public key is tried, in this order, as a JSON Web
//! Key, as the key embedded in a PEM X.509 certificate, and as a PEM public
//! key. The loader is strict about the family: a key that is not of the
//! expected family is not loaded. It is strict about the role too, which it
//! takes from the label of the PEM document: a public key is no private key,
//! and a private key no public key.
//!
//! A PEM document is looked at before a key reader sees it: its contents
//! must be a well-formed run of DER values that nests no deeper than any key
//! does. A certificate is read from the bytes of its PEM document, so that
//! no pass phrase is ever asked for.

use vstd::prelude::*;
use vstd::utf8::encode_utf8;
use crate::asn1::{is_shallow, shallow};
use crate::registry::KeyFamily;
use crate::text::same_text;

verus! {

/// `jsonwebtoken::EncodingKey`, a parsed private key; opaque here.
#[verifier::external_type_specification]
#[verifier::external_body]
pub struct ExEncodingKey(jsonwebtoken::EncodingKey);

/// `jsonwebtoken::DecodingKey`, a parsed public key; opaque here.
#[verifier::external_type_specification]
#[verifier::external_body]
pub struct ExDecodingKey(jsonwebtoken::DecodingKey);

/// `jsonwebtoken::jwk::Jwk`, a parsed JSON Web Key; opaque here.
#[verifier::external_type_specification]
#[verifier::external_body]
pub struct ExJwk(jsonwebtoken::jwk::Jwk);

/// `openssl::x509::X509`, a parsed certificate; opaque here.
#[verifier::external_type_specification]
#[verifier::external_body]
pub struct ExX509(openssl::x509::X509);

/// `openssl::pkey::Public`, the mark of a key without private components.
#[verifier::external_type_specification]
#[verifier::external_body]
pub struct ExPublic(openssl::pkey::Public);

/// `openssl::pkey::PKey`, a key as OpenSSL holds it; opaque here.
#[verifier::external_type_specification]
#[verifier::external_body]
#[verifier::reject_recursive_types(T)]
pub struct ExPKey<T>(openssl::pkey::PKey<T>);

/// The family that a `jsonwebtoken::DecodingKey` was built for, or `None` for
/// a shared secret, which belongs to none of the three.
pub uninterp spec fn decoding_key_family(key: jsonwebtoken::DecodingKey) -> Option<KeyFamily>;

/// The family that a `jsonwebtoken::EncodingKey` was built for, or `None` for
/// a shared secret.
pub uninterp spec fn encoding_key_family(key: jsonwebtoken::EncodingKey) -> Option<KeyFamily>;

/// The label and the binary contents that `pem::parse` takes out of a PEM
/// document.
pub uninterp spec fn pem_block(document: Seq<u8>) -> Option<(Seq<char>, Seq<u8>)>;

/// What `EncodingKey::from_rsa_pem` makes of a PEM document.
pub uninterp spec fn rsa_private_key(pem: Seq<u8>) -> Option<jsonwebtoken::EncodingKey>;

/// What `EncodingKey::from_ec_pem` makes of a PEM document.
pub uninterp spec fn ec_private_key(pem: Seq<u8>) -> Option<jsonwebtoken::EncodingKey>;

/// What `EncodingKey::from_ed_pem` makes of a PEM document.
pub uninterp spec fn ed_private_key(pem: Seq<u8>) -> Option<jsonwebtoken::EncodingKey>;

/// What `DecodingKey::from_rsa_pem` makes of a PEM document.
pub uninterp spec fn rsa_public_key(pem: Seq<u8>) -> Option<jsonwebtoken::DecodingKey>;

/// What `DecodingKey::from_ec_pem` makes of a PEM document.
pub uninterp spec fn ec_public_key(pem: Seq<u8>) -> Option<jsonwebtoken::DecodingKey>;

/// What `DecodingKey::from_ed_pem` makes of a PEM document.
pub uninterp spec fn ed_public_key(pem: Seq<u8>) -> Option<jsonwebtoken::DecodingKey>;

/// The JSON Web Key that `serde_json::from_str` reads from a text.
pub uninterp spec fn json_web_key(text: Seq<char>) -> Option<jsonwebtoken::jwk::Jwk>;

/// The family of the parameters that a JSON Web Key holds: RSA, elliptic
/// curve, or Edwards curve for an octet key pair; `None` for an octet
/// sequence, which is a shared secret.
pub uninterp spec fn json_web_key_family(jwk: jsonwebtoken::jwk::Jwk) -> Option<KeyFamily>;

/// What `DecodingKey::from_jwk` makes of a JSON Web Key.
pub uninterp spec fn json_web_key_handle(jwk: jsonwebtoken::jwk::Jwk) -> Option<
    jsonwebtoken::DecodingKey,
>;

/// The certificate that `X509::from_der` reads from DER bytes.
pub uninterp spec fn certificate(der: Seq<u8>) -> Option<openssl::x509::X509>;

/// The public key that `X509Ref::public_key` takes out of a certificate.
pub uninterp spec fn certificate_key(cert: openssl::x509::X509) -> Option<
    openssl::pkey::PKey<openssl::pkey::Public>,
>;

/// The PEM document that `PKeyRef::public_key_to_pem` writes for a key.
pub uninterp spec fn public_key_pem(key: openssl::pkey::PKey<openssl::pkey::Public>) -> Option<
    Seq<u8>,
>;

/// Whether a key signs or verifies.
#[derive(Clone, Copy, Debug, PartialEq, Eq, Structural)]
pub enum KeyRole {
    Private,
    Public,
}

/// Why a key was not loaded.
#[derive(Clone, Copy, Debug, PartialEq, Eq, Structural)]
pub enum KeyError {
    InvalidPrivateKey,
    InvalidPublicKey,
}

/// What a key is: its family, its role, and the handle of that role.
pub struct KeyView {
    pub family: KeyFamily,
    pub role: KeyRole,
    /// The handle that signs, where this is a private key.
    pub signing: Option<jsonwebtoken::EncodingKey>,
    /// The handle that verifies, where this is a public key.
    pub verifying: Option<jsonwebtoken::DecodingKey>,
}

/// The parsed key, as the cryptographic library holds it.
enum KeyHandle {
    Private(jsonwebtoken::EncodingKey),
    Public(jsonwebtoken::DecodingKey),
}

/// A parsed key with its tag. It owns what it holds and is built afresh for
/// each call; nothing writes it out.
pub struct KeyMaterial {
    family: KeyFamily,
    handle: KeyHandle,
}

impl View for KeyMaterial {
    type V = KeyView;

    closed spec fn view(&self) -> KeyView {
        match self.handle {
            KeyHandle::Private(key) => KeyView {
                family: self.family,
                role: KeyRole::Private,
                signing: Some(key),
                verifying: None,
            },
            KeyHandle::Public(key) => KeyView {
                family: self.family,
                role: KeyRole::Public,
                signing: None,
                verifying: Some(key),
            },
        }
    }
}

impl KeyMaterial {
    /// The tag is the family that the handle was built for.
    #[verifier::type_invariant]
    spec fn tag_is_true(self) -> bool {
        match self.handle {
            KeyHandle::Private(key) => encoding_key_family(key) == Some(self.family),
            KeyHandle::Public(key) => decoding_key_family(key) == Some(self.family),
        }
    }

    /// The handle that signs, where this is a private key.
    pub open spec fn encoding_key(self) -> Option<jsonwebtoken::EncodingKey> {
        self@.signing
    }

    /// The handle that verifies, where this is a public key.
    pub open spec fn decoding_key(self) -> Option<jsonwebtoken::DecodingKey> {
        self@.verifying
    }

    /// A key holds the handle of its role, and no other.
    pub proof fn lemma_handle_follows_role(self)
        ensures
            self.encoding_key() is Some <==> self@.role == KeyRole::Private,
            self.decoding_key() is Some <==> self@.role == KeyRole::Public,
    {
    }

    /// The family of this key.
    pub fn family(&self) -> (f: KeyFamily)
        ensures
            f == self@.family,
    {
        self.family
    }

    /// Whether this key signs or verifies.
    pub fn role(&self) -> (r: KeyRole)
        ensures
            r == self@.role,
    {
        match &self.handle {
            KeyHandle::Private(_) => KeyRole::Private,
            KeyHandle::Public(_) => KeyRole::Public,
        }
    }

    /// The signing key, where this is a private key; it was built for the
    /// family of the tag.
    pub(crate) fn signing_key(&self) -> (k: Option<&jsonwebtoken::EncodingKey>)
        ensures
            k is Some <==> self@.role == KeyRole::Private,
            k matches Some(key) ==> self.encoding_key() == Some(*key) && encoding_key_family(*key)
                == Some(self@.family),
            k is None ==> self.encoding_key() is None,
    {
        proof {
            use_type_invariant(self);
        }
        match &self.handle {
            KeyHandle::Private(key) => Some(key),
            KeyHandle::Public(_) => None,
        }
    }

    /// The verification key, where this is a public key; it was built for
    /// the family of the tag.
    pub(crate) fn verification_key(&self) -> (k: Option<&jsonwebtoken::DecodingKey>)
        ensures
            k is Some <==> self@.role == KeyRole::Public,
            k matches Some(key) ==> self.decoding_key() == Some(*key) && decoding_key_family(*key)
                == Some(self@.family),
            k is None ==> self.decoding_key() is None,
    {
        proof {
            use_type_invariant(self);
        }
        match &self.handle {
            KeyHandle::Private(_) => None,
            KeyHandle::Public(key) => Some(key),
        }
    }
}

/// Calls `EncodingKey::from_rsa_pem`, which reads a PKCS#1 or PKCS#8 RSA
/// key. Trusted: the outcome depends on the document alone; a key that is
/// returned was built for the RSA family, and the readers of the two curve
/// families then refuse the same document. The reader descends once for
/// each level of nesting in the document, so it is handed only a document
/// that nests no deeper than `MAX_NESTING`.
#[verifier::external_body]
fn rsa_signing_key(pem: &[u8]) -> (r: Option<jsonwebtoken::EncodingKey>)
    requires
        is_readable_document(pem@),
    ensures
        r == rsa_private_key(pem@),
        r matches Some(key) ==> encoding_key_family(key) == Some(KeyFamily::RSA),
        r is Some ==> ec_private_key(pem@) is None && ed_private_key(pem@) is None,
{
    jsonwebtoken::EncodingKey::from_rsa_pem(pem).ok()
}

/// Calls `EncodingKey::from_ec_pem`, which reads a PKCS#8 elliptic-curve
/// private key. Trusted: the outcome depends on the document alone; a key
/// that is returned was built for the elliptic-curve family, and the readers
/// of the two other families then refuse the same document. The reader
/// descends once for each level of nesting in the document, so it is handed
/// only a document that nests no deeper than `MAX_NESTING`.
#[verifier::external_body]
fn ec_signing_key(pem: &[u8]) -> (r: Option<jsonwebtoken::EncodingKey>)
    requires
        is_readable_document(pem@),
    ensures
        r == ec_private_key(pem@),
        r matches Some(key) ==> encoding_key_family(key) == Some(KeyFamily::EllipticCurve),
        r is Some ==> rsa_private_key(pem@) is None && ed_private_key(pem@) is None,
{
    jsonwebtoken::EncodingKey::from_ec_pem(pem).ok()
}

/// Calls `EncodingKey::from_ed_pem`, which reads a PKCS#8 Edwards-curve
/// private key. Trusted: the outcome depends on the document alone; a key
/// that is returned was built for the Edwards-curve family, and the readers
/// of the two other families then refuse the same document. The reader
/// descends once for each level of nesting in the document, so it is handed
/// only a document that nests no deeper than `MAX_NESTING`.
#[verifier::external_body]
fn ed_signing_key(pem: &[u8]) -> (r: Option<jsonwebtoken::EncodingKey>)
    requires
        is_readable_document(pem@),
    ensures
        r == ed_private_key(pem@),
        r matches Some(key) ==> encoding_key_family(key) == Some(KeyFamily::EdwardsCurve),
        r is Some ==> rsa_private_key(pem@) is None && ec_private_key(pem@) is None,
{
    jsonwebtoken::EncodingKey::from_ed_pem(pem).ok()
}

/// Calls `DecodingKey::from_rsa_pem`. Trusted: the outcome depends on the
/// document alone; a key that is returned was built for the RSA family, and
/// the readers of the two curve families then refuse the same document. The
/// reader descends once for each level of nesting in the document, so it is
/// handed only a document that nests no deeper than `MAX_NESTING`.
#[verifier::external_body]
fn rsa_verification_key(pem: &[u8]) -> (r: Option<jsonwebtoken::DecodingKey>)
    requires
        is_readable_document(pem@),
    ensures
        r == rsa_public_key(pem@),
        r matches Some(key) ==> decoding_key_family(key) == Some(KeyFamily::RSA),
        r is Some ==> ec_public_key(pem@) is None && ed_public_key(pem@) is None,
{
    jsonwebtoken::DecodingKey::from_rsa_pem(pem).ok()
}

/// Calls `DecodingKey::from_ec_pem`. Trusted: the outcome depends on the
/// document alone; a key that is returned was built for the elliptic-curve
/// family, and the readers of the two other families then refuse the same
/// document. The reader descends once for each level of nesting in the
/// document, so it is handed only a document that nests no deeper than
/// `MAX_NESTING`.
#[verifier::external_body]
fn ec_verification_key(pem: &[u8]) -> (r: Option<jsonwebtoken::DecodingKey>)
    requires
        is_readable_document(pem@),
    ensures
        r == ec_public_key(pem@),
        r matches Some(key) ==> decoding_key_family(key) == Some(KeyFamily::EllipticCurve),
        r is Some ==> rsa_public_key(pem@) is None && ed_public_key(pem@) is None,
{
    jsonwebtoken::DecodingKey::from_ec_pem(pem).ok()
}

/// Calls `DecodingKey::from_ed_pem`. Trusted: the outcome depends on the
/// document alone; a key that is returned was built for the Edwards-curve
/// family, and the readers of the two other families then refuse the same
/// document. The reader descends once for each level of nesting in the
/// document, so it is handed only a document that nests no deeper than
/// `MAX_NESTING`.
#[verifier::external_body]
fn ed_verification_key(pem: &[u8]) -> (r: Option<jsonwebtoken::DecodingKey>)
    requires
        is_readable_document(pem@),
    ensures
        r == ed_public_key(pem@),
        r matches Some(key) ==> decoding_key_family(key) == Some(KeyFamily::EdwardsCurve),
        r is Some ==> rsa_public_key(pem@) is None && ec_public_key(pem@) is None,
{
    jsonwebtoken::DecodingKey::from_ed_pem(pem).ok()
}

/// Calls `pem::parse`, and takes the label and the binary contents of what
/// it returns. Trusted: the outcome depends on the document alone. This is
/// the label that the six key readers above go by, and these are the bytes
/// that they parse: they call the same function first.
#[verifier::external_body]
fn parse_pem(document: &[u8]) -> (r: Option<(String, Vec<u8>)>)
    ensures
        r matches Some((label, contents)) ==> pem_block(document@) == Some((label@, contents@)),
        r is None ==> pem_block(document@) is None,
{
    match pem::parse(document) {
        Ok(parsed) => Some((parsed.tag, parsed.contents)),
        Err(_) => None,
    }
}

/// Calls `serde_json::from_str` for a `jsonwebtoken::jwk::Jwk`. Trusted: the
/// outcome depends on the text alone.
#[verifier::external_body]
fn parse_jwk(text: &str) -> (r: Option<jsonwebtoken::jwk::Jwk>)
    ensures
        r == json_web_key(text@),
{
    serde_json::from_str::<jsonwebtoken::jwk::Jwk>(text).ok()
}

/// Reads which kind of parameters a `jsonwebtoken::jwk::Jwk` holds, from its
/// field `algorithm`. Trusted: the outcome is the named family.
#[verifier::external_body]
fn jwk_family(jwk: &jsonwebtoken::jwk::Jwk) -> (r: Option<KeyFamily>)
    ensures
        r == json_web_key_family(*jwk),
{
    match &jwk.algorithm {
        jsonwebtoken::jwk::AlgorithmParameters::RSA(_) => Some(KeyFamily::RSA),
        jsonwebtoken::jwk::AlgorithmParameters::EllipticCurve(_) => Some(KeyFamily::EllipticCurve),
        jsonwebtoken::jwk::AlgorithmParameters::OctetKeyPair(_) => Some(KeyFamily::EdwardsCurve),
        jsonwebtoken::jwk::AlgorithmParameters::OctetKey(_) => None,
    }
}

/// Calls `DecodingKey::from_jwk`. Trusted: the outcome depends on the JSON
/// Web Key alone, and a key that is returned was built for the family of the
/// parameters that the JSON Web Key holds.
#[verifier::external_body]
fn verification_key_from_jwk(jwk: &jsonwebtoken::jwk::Jwk) -> (r: Option<
    jsonwebtoken::DecodingKey,
>)
    ensures
        r == json_web_key_handle(*jwk),
        r matches Some(key) ==> decoding_key_family(key) == json_web_key_family(*jwk),
{
    jsonwebtoken::DecodingKey::from_jwk(jwk).ok()
}

/// Calls `X509::from_der`, which reads a certificate from DER bytes.
/// Trusted: the outcome depends on the bytes alone. The certificate is read
/// from bytes and not from a PEM document, so that no pass phrase is ever
/// asked for.
#[verifier::external_body]
fn parse_certificate(der: &[u8]) -> (r: Option<openssl::x509::X509>)
    ensures
        r == certificate(der@),
{
    openssl::x509::X509::from_der(der).ok()
}

/// Calls `X509Ref::public_key`. Trusted: the outcome depends on the
/// certificate alone.
#[verifier::external_body]
fn certificate_public_key(cert: &openssl::x509::X509) -> (r: Option<
    openssl::pkey::PKey<openssl::pkey::Public>,
>)
    ensures
        r == certificate_key(*cert),
{
    cert.public_key().ok()
}

/// Calls `PKeyRef::public_key_to_pem`, which writes the key as a PEM
/// SubjectPublicKeyInfo. Trusted: the outcome depends on the key alone.
#[verifier::external_body]
fn public_key_to_pem(key: &openssl::pkey::PKey<openssl::pkey::Public>) -> (r: Option<Vec<u8>>)
    ensures
        r matches Some(pem) ==> public_key_pem(*key) == Some(pem@),
        r is None ==> public_key_pem(*key) is None,
{
    key.public_key_to_pem().ok()
}

/// A document that a key reader is handed: a PEM document whose binary
/// contents are a well-formed run of DER values that nests no deeper than
/// `MAX_NESTING`.
pub open spec fn is_readable_document(document: Seq<u8>) -> bool {
    pem_block(document) matches Some((_, contents)) && is_shallow(contents)
}

/// What a PEM label says the document holds: a private key under
/// `PRIVATE KEY` and `RSA PRIVATE KEY`, a public key under `PUBLIC KEY` and
/// `RSA PUBLIC KEY`, and no key under any other label.
pub open spec fn labelled_role(label: Seq<char>) -> Option<KeyRole> {
    if label == "PRIVATE KEY"@ || label == "RSA PRIVATE KEY"@ {
        Some(KeyRole::Private)
    } else if label == "PUBLIC KEY"@ || label == "RSA PUBLIC KEY"@ {
        Some(KeyRole::Public)
    } else {
        None
    }
}

/// The role of the key that a document is read as: the role that its label
/// says, where the document is one that a key reader is handed.
pub open spec fn document_role(document: Seq<u8>) -> Option<KeyRole> {
    match pem_block(document) {
        Some((label, contents)) => if is_shallow(contents) {
            labelled_role(label)
        } else {
            None
        },
        None => None,
    }
}

/// What the PEM reader of `family` makes of a private key document; nothing
/// where the document is not handed to it, as where its label does not say
/// that it holds a private key.
pub open spec fn private_handle(pem: Seq<u8>, family: KeyFamily) -> Option<
    jsonwebtoken::EncodingKey,
> {
    if document_role(pem) != Some(KeyRole::Private) {
        None
    } else {
        match family {
            KeyFamily::RSA => rsa_private_key(pem),
            KeyFamily::EllipticCurve => ec_private_key(pem),
            KeyFamily::EdwardsCurve => ed_private_key(pem),
        }
    }
}

/// What the PEM reader of `family` makes of a public key document; nothing
/// where the document is not handed to it, as where its label does not say
/// that it holds a public key.
pub open spec fn public_pem_handle(pem: Seq<u8>, family: KeyFamily) -> Option<
    jsonwebtoken::DecodingKey,
> {
    if document_role(pem) != Some(KeyRole::Public) {
        None
    } else {
        match family {
            KeyFamily::RSA => rsa_public_key(pem),
            KeyFamily::EllipticCurve => ec_public_key(pem),
            KeyFamily::EdwardsCurve => ed_public_key(pem),
        }
    }
}

/// The public key embedded in a PEM X.509 certificate, as a PEM public key;
/// `None` where the document is no PEM document under the label
/// `CERTIFICATE`, its contents are no certificate, or the key cannot be
/// written out.
pub open spec fn embedded_public_key_pem(document: Seq<u8>) -> Option<Seq<u8>> {
    match pem_block(document) {
        Some((label, contents)) => if label == "CERTIFICATE"@ {
            match certificate(contents) {
                Some(cert) => match certificate_key(cert) {
                    Some(key) => public_key_pem(key),
                    None => None,
                },
                None => None,
            }
        } else {
            None
        },
        None => None,
    }
}

/// The PEM document that a text which is no JSON Web Key is read as: the key
/// embedded in it where it is a certificate, else the text itself.
pub open spec fn public_key_document(text: Seq<char>) -> Seq<u8> {
    match embedded_public_key_pem(encode_utf8(text)) {
        Some(pem) => pem,
        None => encode_utf8(text),
    }
}

/// The public key of `family` that `text` holds. The text is taken as the
/// first of these that it parses as: a JSON Web Key, which must be of
/// `family`; a PEM X.509 certificate, whose embedded key is read; a PEM
/// public key.
pub open spec fn public_handle(text: Seq<char>, family: KeyFamily) -> Option<
    jsonwebtoken::DecodingKey,
> {
    match json_web_key(text) {
        Some(jwk) => if json_web_key_family(jwk) == Some(family) {
            json_web_key_handle(jwk)
        } else {
            None
        },
        None => public_pem_handle(public_key_document(text), family),
    }
}

/// `text` holds a private key of a family other than `family`.
pub open spec fn holds_private_key_of_another_family(text: Seq<char>, family: KeyFamily) -> bool {
    let pem = encode_utf8(text);
    ||| family != KeyFamily::RSA && private_handle(pem, KeyFamily::RSA) is Some
    ||| family != KeyFamily::EllipticCurve && private_handle(pem, KeyFamily::EllipticCurve) is Some
    ||| family != KeyFamily::EdwardsCurve && private_handle(pem, KeyFamily::EdwardsCurve) is Some
}

/// `text` holds a public key of a family other than `family`.
pub open spec fn holds_public_key_of_another_family(text: Seq<char>, family: KeyFamily) -> bool {
    ||| family != KeyFamily::RSA && public_handle(text, KeyFamily::RSA) is Some
    ||| family != KeyFamily::EllipticCurve && public_handle(text, KeyFamily::EllipticCurve) is Some
    ||| family != KeyFamily::EdwardsCurve && public_handle(text, KeyFamily::EdwardsCurve) is Some
}

/// `key` is a private key of `family`, and its handle was built for that
/// family.
pub open spec fn is_private_key_of(key: KeyMaterial, family: KeyFamily) -> bool {
    &&& key@.family == family
    &&& key@.role == KeyRole::Private
    &&& key.encoding_key() matches Some(handle)
    &&& encoding_key_family(handle) == Some(family)
}

/// `key` is a public key of `family`, and its handle was built for that
/// family.
pub open spec fn is_public_key_of(key: KeyMaterial, family: KeyFamily) -> bool {
    &&& key@.family == family
    &&& key@.role == KeyRole::Public
    &&& key.decoding_key() matches Some(handle)
    &&& decoding_key_family(handle) == Some(family)
}

/// A PEM document holds a key of one role only: a text that is no JSON Web
/// Key and holds a private key holds no public key, of whatever family.
pub proof fn lemma_a_document_has_one_role(text: Seq<char>, family: KeyFamily, other: KeyFamily)
    requires
        json_web_key(text) is None,
        private_handle(encode_utf8(text), family) is Some,
    ensures
        public_handle(text, other) is None,
{
    reveal_strlit("PRIVATE KEY");
    reveal_strlit("RSA PRIVATE KEY");
    reveal_strlit("CERTIFICATE");
    assert("CERTIFICATE"@[0] == 'C' && "PRIVATE KEY"@[0] == 'P' && "RSA PRIVATE KEY"@[0] == 'R');
}

/// Makes a private key of a signing key that was built for `family`.
fn private_key_from(parsed: Option<jsonwebtoken::EncodingKey>, family: KeyFamily) -> (r: Result<
    KeyMaterial,
    KeyError,
>)
    requires
        parsed matches Some(key) ==> encoding_key_family(key) == Some(family),
    ensures
        r matches Ok(key) ==> parsed == key.encoding_key() && is_private_key_of(key, family),
        r matches Err(e) ==> parsed is None && e == KeyError::InvalidPrivateKey,
{
    match parsed {
        Some(key) => Ok(KeyMaterial { family, handle: KeyHandle::Private(key) }),
        None => Err(KeyError::InvalidPrivateKey),
    }
}

/// Makes a public key of a verification key that was built for `family`.
fn public_key_from(parsed: Option<jsonwebtoken::DecodingKey>, family: KeyFamily) -> (r: Result<
    KeyMaterial,
    KeyError,
>)
    requires
        parsed matches Some(key) ==> decoding_key_family(key) == Some(family),
    ensures
        r matches Ok(key) ==> parsed == key.decoding_key() && is_public_key_of(key, family),
        r matches Err(e) ==> parsed is None && e == KeyError::InvalidPublicKey,
{
    match parsed {
        Some(key) => Ok(KeyMaterial { family, handle: KeyHandle::Public(key) }),
        None => Err(KeyError::InvalidPublicKey),
    }
}

/// The public key embedded in a PEM X.509 certificate, as a PEM public key.
fn embedded_public_key(document: &[u8]) -> (r: Option<Vec<u8>>)
    ensures
        r matches Some(pem) ==> embedded_public_key_pem(document@) == Some(pem@),
        r is None ==> embedded_public_key_pem(document@) is None,
{
    match parse_pem(document) {
        Some((label, contents)) => {
            if !same_text(label.as_str(), "CERTIFICATE") {
                return None;
            }
            match parse_certificate(contents.as_slice()) {
                Some(cert) => match certificate_public_key(&cert) {
                    Some(key) => public_key_to_pem(&key),
                    None => None,
                },
                None => None,
            }
        },
        None => None,
    }
}

/// What a PEM label says the document holds.
fn label_role(label: &str) -> (r: Option<KeyRole>)
    ensures
        r == labelled_role(label@),
{
    if same_text(label, "PRIVATE KEY") || same_text(label, "RSA PRIVATE KEY") {
        Some(KeyRole::Private)
    } else if same_text(label, "PUBLIC KEY") || same_text(label, "RSA PUBLIC KEY") {
        Some(KeyRole::Public)
    } else {
        None
    }
}

/// The role of the key that `document` is read as, where it is a PEM
/// document that a key reader is handed.
fn role_of_document(document: &[u8]) -> (r: Option<KeyRole>)
    ensures
        r == document_role(document@),
        r is Some ==> is_readable_document(document@),
{
    match parse_pem(document) {
        Some((label, contents)) => {
            if shallow(contents.as_slice()) {
                label_role(label.as_str())
            } else {
                None
            }
        },
        None => None,
    }
}

/// Reads a PEM private key as a key of `family`.
fn private_pem_key(pem: &[u8], family: KeyFamily) -> (r: Option<jsonwebtoken::EncodingKey>)
    ensures
        r == private_handle(pem@, family),
        r matches Some(key) ==> encoding_key_family(key) == Some(family),
        r is Some ==> forall|other: KeyFamily|
            other != family ==> (#[trigger] private_handle(pem@, other)) is None,
{
    match role_of_document(pem) {
        Some(KeyRole::Private) => {},
        _ => {
            return None;
        },
    }
    match family {
        KeyFamily::RSA => rsa_signing_key(pem),
        KeyFamily::EllipticCurve => ec_signing_key(pem),
        KeyFamily::EdwardsCurve => ed_signing_key(pem),
    }
}

/// Reads a PEM public key as a key of `family`.
fn public_pem_key(pem: &[u8], family: KeyFamily) -> (r: Option<jsonwebtoken::DecodingKey>)
    ensures
        r == public_pem_handle(pem@, family),
        r matches Some(key) ==> decoding_key_family(key) == Some(family),
        r is Some ==> forall|other: KeyFamily|
            other != family ==> (#[trigger] public_pem_handle(pem@, other)) is None,
{
    match role_of_document(pem) {
        Some(KeyRole::Public) => {},
        _ => {
            return None;
        },
    }
    match family {
        KeyFamily::RSA => rsa_verification_key(pem),
        KeyFamily::EllipticCurve => ec_verification_key(pem),
        KeyFamily::EdwardsCurve => ed_verification_key(pem),
    }
}

/// Reads the key of a JSON Web Key, where its parameters are of `family`.
fn json_web_key_of(jwk: &jsonwebtoken::jwk::Jwk, family: KeyFamily) -> (r: Option<
    jsonwebtoken::DecodingKey,
>)
    ensures
        r == (if json_web_key_family(*jwk) == Some(family) {
            json_web_key_handle(*jwk)
        } else {
            None
        }),
        r matches Some(key) ==> decoding_key_family(key) == Some(family),
{
    match jwk_family(jwk) {
        Some(found) => {
            if found == family {
                verification_key_from_jwk(jwk)
            } else {
                None
            }
        },
        None => None,
    }
}

/// Reads a PEM private key of the expected family: PKCS#1 or PKCS#8 for RSA,
/// PKCS#8 for the two curve families.
///
/// The key is loaded exactly where `pem_text` is a PEM document under the
/// label `PRIVATE KEY` or `RSA PRIVATE KEY` that the PEM reader of the family
/// accepts; it is then a private key of that family and holds what the
/// reader made. A public key and a certificate are refused, and so is a key
/// of another family. The one failure is `InvalidPrivateKey`.
pub fn load_private(pem_text: &str, expected_family: KeyFamily) -> (r: Result<KeyMaterial, KeyError>)
    ensures
        r matches Ok(key) ==> is_private_key_of(key, expected_family) && key.encoding_key()
            == private_handle(encode_utf8(pem_text@), expected_family),
        r is Ok <==> private_handle(encode_utf8(pem_text@), expected_family) is Some,
        r matches Err(e) ==> e == KeyError::InvalidPrivateKey,
        holds_private_key_of_another_family(pem_text@, expected_family) ==> r is Err,
{
    let parsed = private_pem_key(pem_text.as_bytes(), expected_family);
    private_key_from(parsed, expected_family)
}

/// Reads a public key of the expected family from `text`, which is taken as
/// the first of these that it parses as: a JSON Web Key; a PEM X.509
/// certificate, whose embedded key is used; a PEM public key.
///
/// The key is loaded exactly where `text` holds a public key of the expected
/// family; a PEM public key stands under the label `PUBLIC KEY` or
/// `RSA PUBLIC KEY`. A private key is refused, and so are a key of another
/// family and a JSON Web Key that holds a shared secret. The one failure is
/// `InvalidPublicKey`.
pub fn load_public(text: &str, expected_family: KeyFamily) -> (r: Result<KeyMaterial, KeyError>)
    ensures
        r matches Ok(key) ==> is_public_key_of(key, expected_family) && key.decoding_key()
            == public_handle(text@, expected_family),
        r is Ok <==> public_handle(text@, expected_family) is Some,
        r matches Err(e) ==> e == KeyError::InvalidPublicKey,
        holds_public_key_of_another_family(text@, expected_family) ==> r is Err,
{
    let parsed = match parse_jwk(text) {
        Some(jwk) => json_web_key_of(&jwk, expected_family),
        None => match embedded_public_key(text.as_bytes()) {
            Some(pem) => public_pem_key(pem.as_slice(), expected_family),
            None => public_pem_key(text.as_bytes(), expected_family),
        },
    };
    public_key_from(parsed, expected_family)
}

} // verus!
