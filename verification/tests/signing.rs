use jws_engine::codec::{decode, encode};
use jws_engine::crypto::resolve_algorithm;
use jws_engine::keys::{load_private, load_public};
use jws_engine::registry::{AlgorithmId, KeyFamily};
use jws_engine::signing::{
    gen_sign, sign, sign_with_key, signature_or_error, signature_or_sentinel,
    SignError,
};
use jws_engine::token::{compact_token, signing_input};
use jws_engine::verification::{
    check, check_compact, check_input, signature_is_valid, verdict, verify, verify_compact,
    verify_with_key, VerifyError,
};
use openssl::asn1::Asn1Time;
use openssl::bn::{BigNum, BigNumContext};
use openssl::ec::{EcGroup, EcKey};
use openssl::hash::MessageDigest;
use openssl::nid::Nid;
use openssl::pkey::{PKey, Private};
use openssl::rsa::{Padding, Rsa};
use openssl::sign::{RsaPssSaltlen, Signer, Verifier};
use openssl::x509::{X509NameBuilder, X509};

const HEADER: &str = "{\"alg\":\"RS256\",\"typ\":\"JWT\"}";
const PAYLOAD: &str = "{\"sub\":\"1234567890\"}";

const RSA_ALGORITHMS: [&str; 6] = ["RS256", "RS384", "RS512", "PS256", "PS384", "PS512"];

struct Pair {
    key: PKey<Private>,
    private_pem: String,
    public_pem: String,
}

fn text(pem: Vec<u8>) -> String {
    String::from_utf8(pem).unwrap()
}

fn pair(key: PKey<Private>) -> Pair {
    let private_pem = text(key.private_key_to_pem_pkcs8().unwrap());
    let public_pem = text(key.public_key_to_pem().unwrap());
    Pair { key, private_pem, public_pem }
}

fn rsa_pair() -> Pair {
    pair(PKey::from_rsa(Rsa::generate(2048).unwrap()).unwrap())
}

fn ec_pair(curve: Nid) -> Pair {
    let group = EcGroup::from_curve_name(curve).unwrap();
    pair(PKey::from_ec_key(EcKey::generate(&group).unwrap()).unwrap())
}

fn ed_pair() -> Pair {
    pair(PKey::generate_ed25519().unwrap())
}

/// A fresh key pair of the family and size that `algorithm` needs.
fn pair_for(algorithm: &str) -> Pair {
    match algorithm {
        "ES256" => ec_pair(Nid::X9_62_PRIME256V1),
        "ES384" => ec_pair(Nid::SECP384R1),
        "EdDSA" => ed_pair(),
        _ => rsa_pair(),
    }
}

fn certificate(key: &PKey<Private>) -> String {
    let mut name = X509NameBuilder::new().unwrap();
    name.append_entry_by_text("CN", "example").unwrap();
    let name = name.build();
    let mut builder = X509::builder().unwrap();
    builder.set_version(2).unwrap();
    builder.set_subject_name(&name).unwrap();
    builder.set_issuer_name(&name).unwrap();
    builder.set_pubkey(key).unwrap();
    builder.set_not_before(&Asn1Time::days_from_now(0).unwrap()).unwrap();
    builder.set_not_after(&Asn1Time::days_from_now(30).unwrap()).unwrap();
    builder.sign(key, MessageDigest::sha256()).unwrap();
    text(builder.build().to_pem().unwrap())
}

fn rsa_jwk(key: &PKey<Private>) -> String {
    let rsa = key.rsa().unwrap();
    format!(
        "{{\"kty\":\"RSA\",\"n\":\"{}\",\"e\":\"{}\"}}",
        encode(&rsa.n().to_vec()),
        encode(&rsa.e().to_vec())
    )
}

fn ec_jwk(key: &PKey<Private>) -> String {
    let ec = key.ec_key().unwrap();
    let mut ctx = BigNumContext::new().unwrap();
    let mut x = BigNum::new().unwrap();
    let mut y = BigNum::new().unwrap();
    ec.public_key().affine_coordinates(ec.group(), &mut x, &mut y, &mut ctx).unwrap();
    format!(
        "{{\"kty\":\"EC\",\"crv\":\"P-256\",\"x\":\"{}\",\"y\":\"{}\"}}",
        encode(&x.to_vec_padded(32).unwrap()),
        encode(&y.to_vec_padded(32).unwrap())
    )
}

fn ed_jwk(key: &PKey<Private>) -> String {
    format!(
        "{{\"kty\":\"OKP\",\"crv\":\"Ed25519\",\"x\":\"{}\"}}",
        encode(&key.raw_public_key().unwrap())
    )
}

/// `payload` with the lowest bit of its first byte flipped.
fn tampered(payload: &str) -> String {
    let mut bytes = payload.as_bytes().to_vec();
    bytes[0] ^= 1;
    String::from_utf8(bytes).unwrap()
}

fn signs_and_verifies(algorithm: &str) {
    let keys = pair_for(algorithm);
    let signature = sign(HEADER, PAYLOAD, &keys.private_pem, algorithm).unwrap();
    assert!(!signature.is_empty());
    assert!(decode(&signature).is_ok());
    assert_eq!(check(HEADER, PAYLOAD, &signature, &keys.public_pem, algorithm), Ok(()));
    assert!(verify(HEADER, PAYLOAD, &signature, &keys.public_pem, algorithm));
    let token = compact_token(HEADER, PAYLOAD, &signature);
    assert!(verify_compact(&token, &keys.public_pem, algorithm));
    assert!(signature_is_valid(&token, &keys.public_pem, algorithm));
}

fn rejects_a_tampered_payload(algorithm: &str) {
    let keys = pair_for(algorithm);
    let signature = sign(HEADER, PAYLOAD, &keys.private_pem, algorithm).unwrap();
    let changed = tampered(PAYLOAD);
    assert_ne!(changed, PAYLOAD);
    assert_eq!(
        check(HEADER, &changed, &signature, &keys.public_pem, algorithm),
        Err(VerifyError::SignatureMismatch)
    );
    assert!(!verify(HEADER, &changed, &signature, &keys.public_pem, algorithm));
    let token = compact_token(HEADER, &changed, &signature);
    assert!(!verify_compact(&token, &keys.public_pem, algorithm));
    assert!(verify(HEADER, PAYLOAD, &signature, &keys.public_pem, algorithm));
}

#[test]
fn rs256_signs_and_verifies() {
    signs_and_verifies("RS256");
}

#[test]
fn rs384_signs_and_verifies() {
    signs_and_verifies("RS384");
}

#[test]
fn rs512_signs_and_verifies() {
    signs_and_verifies("RS512");
}

#[test]
fn ps256_signs_and_verifies() {
    signs_and_verifies("PS256");
}

#[test]
fn ps384_signs_and_verifies() {
    signs_and_verifies("PS384");
}

#[test]
fn ps512_signs_and_verifies() {
    signs_and_verifies("PS512");
}

#[test]
fn es256_signs_and_verifies() {
    signs_and_verifies("ES256");
}

#[test]
fn es384_signs_and_verifies() {
    signs_and_verifies("ES384");
}

#[test]
fn eddsa_signs_and_verifies() {
    signs_and_verifies("EdDSA");
}

#[test]
fn rsa_algorithms_reject_a_tampered_payload() {
    for algorithm in RSA_ALGORITHMS {
        rejects_a_tampered_payload(algorithm);
    }
}

#[test]
fn curve_algorithms_reject_a_tampered_payload() {
    for algorithm in ["ES256", "ES384", "EdDSA"] {
        rejects_a_tampered_payload(algorithm);
    }
}

#[test]
fn a_tampered_header_or_signature_is_rejected() {
    let keys = rsa_pair();
    let signature = sign(HEADER, PAYLOAD, &keys.private_pem, "RS256").unwrap();
    assert!(!verify(&tampered(HEADER), PAYLOAD, &signature, &keys.public_pem, "RS256"));
    let mut bytes = decode(&signature).unwrap();
    bytes[10] ^= 1;
    let forged = encode(&bytes);
    assert_eq!(
        check(HEADER, PAYLOAD, &forged, &keys.public_pem, "RS256"),
        Err(VerifyError::SignatureMismatch)
    );
}

#[test]
fn the_rs256_scenario() {
    let keys = rsa_pair();
    let signature = gen_sign(HEADER, PAYLOAD, &keys.private_pem, "RS256");
    assert_ne!(signature, "ERROR");
    assert_eq!(decode(&signature).unwrap().len(), 256);
    let token = compact_token(HEADER, PAYLOAD, &signature);
    assert!(signature_is_valid(&token, &keys.public_pem, "RS256"));
    assert!(!signature_is_valid(&token, &keys.public_pem, "RS384"));
    assert!(verify(HEADER, PAYLOAD, &signature, &keys.public_pem, "RS256"));
    assert!(!verify(HEADER, PAYLOAD, &signature, &keys.public_pem, "RS384"));
    assert_eq!(
        check(HEADER, PAYLOAD, &signature, &keys.public_pem, "RS384"),
        Err(VerifyError::SignatureMismatch)
    );
}

#[test]
fn pkcs1_signatures_are_the_same_on_every_call() {
    let keys = rsa_pair();
    for algorithm in ["RS256", "RS384", "RS512"] {
        let first = sign(HEADER, PAYLOAD, &keys.private_pem, algorithm).unwrap();
        let second = sign(HEADER, PAYLOAD, &keys.private_pem, algorithm).unwrap();
        assert_eq!(first, second);
    }
    let ed = ed_pair();
    assert_eq!(
        sign(HEADER, PAYLOAD, &ed.private_pem, "EdDSA"),
        sign(HEADER, PAYLOAD, &ed.private_pem, "EdDSA")
    );
}

#[test]
fn an_rsa_signature_does_not_verify_under_an_elliptic_curve_key() {
    let rsa = rsa_pair();
    let ec = ec_pair(Nid::X9_62_PRIME256V1);
    let signature = sign(HEADER, PAYLOAD, &rsa.private_pem, "RS256").unwrap();
    assert!(!verify(HEADER, PAYLOAD, &signature, &ec.public_pem, "ES256"));
    assert!(!verify(HEADER, PAYLOAD, &signature, &ec.public_pem, "RS256"));
    assert!(!verify(HEADER, PAYLOAD, &signature, &rsa.public_pem, "ES256"));
    assert_eq!(
        check(HEADER, PAYLOAD, &signature, &ec.public_pem, "RS256"),
        Err(VerifyError::InvalidPublicKey)
    );
    assert_eq!(
        check(HEADER, PAYLOAD, &signature, &rsa.public_pem, "ES256"),
        Err(VerifyError::InvalidPublicKey)
    );
}

#[test]
fn a_key_of_another_family_is_refused_for_every_pairing() {
    let rsa = rsa_pair();
    let ec = ec_pair(Nid::X9_62_PRIME256V1);
    let ed = ed_pair();
    let cases = [
        ("RS256", &rsa, "ES256", &ec),
        ("RS256", &rsa, "EdDSA", &ed),
        ("ES256", &ec, "RS256", &rsa),
        ("ES256", &ec, "EdDSA", &ed),
        ("EdDSA", &ed, "RS256", &rsa),
        ("EdDSA", &ed, "ES256", &ec),
    ];
    for (signing, signer, other, stranger) in cases {
        let signature = sign(HEADER, PAYLOAD, &signer.private_pem, signing).unwrap();
        // the stranger's key, under either algorithm
        assert!(!verify(HEADER, PAYLOAD, &signature, &stranger.public_pem, signing));
        assert!(!verify(HEADER, PAYLOAD, &signature, &stranger.public_pem, other));
        // the signer's key, under the other family's algorithm
        assert_eq!(
            check(HEADER, PAYLOAD, &signature, &signer.public_pem, other),
            Err(VerifyError::InvalidPublicKey)
        );
    }
}

#[test]
fn a_json_web_key_of_another_family_is_refused_without_a_crash() {
    let rsa = rsa_pair();
    let ec = ec_pair(Nid::X9_62_PRIME256V1);
    let ed = ed_pair();
    let signature = sign(HEADER, PAYLOAD, &rsa.private_pem, "RS256").unwrap();
    for algorithm in ["ES256", "ES384", "EdDSA"] {
        assert_eq!(
            check(HEADER, PAYLOAD, &signature, &rsa_jwk(&rsa.key), algorithm),
            Err(VerifyError::InvalidPublicKey)
        );
    }
    for algorithm in RSA_ALGORITHMS {
        assert_eq!(
            check(HEADER, PAYLOAD, &signature, &ec_jwk(&ec.key), algorithm),
            Err(VerifyError::InvalidPublicKey)
        );
        assert_eq!(
            check(HEADER, PAYLOAD, &signature, &ed_jwk(&ed.key), algorithm),
            Err(VerifyError::InvalidPublicKey)
        );
    }
}

#[test]
fn a_json_web_key_verifies_what_its_private_key_signed() {
    let rsa = rsa_pair();
    let signature = sign(HEADER, PAYLOAD, &rsa.private_pem, "PS256").unwrap();
    assert_eq!(check(HEADER, PAYLOAD, &signature, &rsa_jwk(&rsa.key), "PS256"), Ok(()));
    let ec = ec_pair(Nid::X9_62_PRIME256V1);
    let signature = sign(HEADER, PAYLOAD, &ec.private_pem, "ES256").unwrap();
    assert_eq!(check(HEADER, PAYLOAD, &signature, &ec_jwk(&ec.key), "ES256"), Ok(()));
    let ed = ed_pair();
    let signature = sign(HEADER, PAYLOAD, &ed.private_pem, "EdDSA").unwrap();
    assert_eq!(check(HEADER, PAYLOAD, &signature, &ed_jwk(&ed.key), "EdDSA"), Ok(()));
    assert_eq!(
        check(HEADER, &tampered(PAYLOAD), &signature, &ed_jwk(&ed.key), "EdDSA"),
        Err(VerifyError::SignatureMismatch)
    );
}

#[test]
fn a_certificate_verifies_as_its_embedded_public_key_does() {
    for algorithm in ["RS256", "PS384", "ES256"] {
        let keys = pair_for(algorithm);
        let cert = certificate(&keys.key);
        let signature = sign(HEADER, PAYLOAD, &keys.private_pem, algorithm).unwrap();
        let changed = tampered(PAYLOAD);
        let other = sign(HEADER, PAYLOAD, &pair_for(algorithm).private_pem, algorithm).unwrap();
        for (payload, signature) in [(PAYLOAD, &signature), (changed.as_str(), &signature), (PAYLOAD, &other)] {
            assert_eq!(
                check(HEADER, payload, signature, &cert, algorithm),
                check(HEADER, payload, signature, &keys.public_pem, algorithm)
            );
        }
        assert_eq!(check(HEADER, PAYLOAD, &signature, &cert, algorithm), Ok(()));
        assert_eq!(
            check(HEADER, &changed, &signature, &cert, algorithm),
            Err(VerifyError::SignatureMismatch)
        );
    }
}

#[test]
fn es512_is_reported_as_unsupported() {
    let ec = ec_pair(Nid::SECP521R1);
    assert_eq!(sign(HEADER, PAYLOAD, &ec.private_pem, "ES512"), Err(SignError::UnsupportedAlgorithm));
    assert_eq!(gen_sign(HEADER, PAYLOAD, &ec.private_pem, "ES512"), "ERROR");
    assert_eq!(
        check(HEADER, PAYLOAD, "c2ln", &ec.public_pem, "ES512"),
        Err(VerifyError::UnsupportedAlgorithm)
    );
    assert!(!verify(HEADER, PAYLOAD, "c2ln", &ec.public_pem, "ES512"));
    assert!(resolve_algorithm("ES512").is_none());
}

#[test]
fn an_unknown_algorithm_is_reported_before_anything_else() {
    let keys = rsa_pair();
    for algorithm in ["", "none", "HS256", "rs256"] {
        assert_eq!(
            sign(HEADER, PAYLOAD, &keys.private_pem, algorithm),
            Err(SignError::UnsupportedAlgorithm)
        );
        assert_eq!(sign(HEADER, PAYLOAD, "no key", algorithm), Err(SignError::UnsupportedAlgorithm));
        assert_eq!(gen_sign(HEADER, PAYLOAD, &keys.private_pem, algorithm), "ERROR");
        assert_eq!(
            check(HEADER, PAYLOAD, "not base64!!", "no key", algorithm),
            Err(VerifyError::UnsupportedAlgorithm)
        );
        assert_eq!(
            check_compact("no token", "no key", algorithm),
            Err(VerifyError::UnsupportedAlgorithm)
        );
        assert!(!signature_is_valid("a.b.c", &keys.public_pem, algorithm));
    }
}

#[test]
fn resolve_algorithm_keeps_what_the_engine_can_use() {
    for algorithm in ["RS256", "RS384", "RS512", "PS256", "PS384", "PS512", "ES256", "ES384", "EdDSA"] {
        let (alg, backend) = resolve_algorithm(algorithm).unwrap();
        assert_eq!(alg.token(), algorithm);
        assert_eq!(format!("{backend:?}"), algorithm);
    }
    assert!(resolve_algorithm("HS256").is_none());
}

#[test]
fn sign_refuses_a_bad_private_key() {
    let rsa = rsa_pair();
    let ec = ec_pair(Nid::X9_62_PRIME256V1);
    assert_eq!(sign(HEADER, PAYLOAD, "", "RS256"), Err(SignError::InvalidKey));
    assert_eq!(sign(HEADER, PAYLOAD, "not a key", "EdDSA"), Err(SignError::InvalidKey));
    assert_eq!(sign(HEADER, PAYLOAD, &ec.private_pem, "RS256"), Err(SignError::InvalidKey));
    assert_eq!(sign(HEADER, PAYLOAD, &rsa.private_pem, "ES256"), Err(SignError::InvalidKey));
    assert_eq!(sign(HEADER, PAYLOAD, &rsa.private_pem, "EdDSA"), Err(SignError::InvalidKey));
    assert_eq!(sign(HEADER, PAYLOAD, &ec.public_pem, "ES256"), Err(SignError::InvalidKey));
    assert_eq!(gen_sign(HEADER, PAYLOAD, "not a key", "RS256"), "ERROR");
}

#[test]
fn sign_refuses_a_curve_that_the_algorithm_does_not_use() {
    let p384 = ec_pair(Nid::SECP384R1);
    assert_eq!(sign(HEADER, PAYLOAD, &p384.private_pem, "ES256"), Err(SignError::InvalidKey));
}

#[test]
fn sign_takes_header_and_payload_as_opaque_bytes() {
    let keys = rsa_pair();
    let signature = sign("not json", "", &keys.private_pem, "RS256").unwrap();
    assert!(verify("not json", "", &signature, &keys.public_pem, "RS256"));
    assert!(!verify("not json", " ", &signature, &keys.public_pem, "RS256"));
}

#[test]
fn sign_with_key_needs_a_private_key_of_the_algorithm_family() {
    let rsa = rsa_pair();
    let input = signing_input(HEADER, PAYLOAD);
    let private = load_private(&rsa.private_pem, KeyFamily::RSA).unwrap();
    let public = load_public(&rsa.public_pem, KeyFamily::RSA).unwrap();
    assert!(sign_with_key(&input, &private, AlgorithmId::RS256).is_ok());
    assert_eq!(sign_with_key(&input, &public, AlgorithmId::RS256), Err(SignError::InvalidKey));
    assert_eq!(sign_with_key(&input, &private, AlgorithmId::ES256), Err(SignError::InvalidKey));
    assert_eq!(sign_with_key(&input, &private, AlgorithmId::EdDSA), Err(SignError::InvalidKey));
    assert_eq!(
        sign_with_key(&input, &private, AlgorithmId::ES512),
        Err(SignError::UnsupportedAlgorithm)
    );
}

#[test]
fn verify_with_key_needs_a_public_key_of_the_algorithm_family() {
    let rsa = rsa_pair();
    let input = signing_input(HEADER, PAYLOAD);
    let private = load_private(&rsa.private_pem, KeyFamily::RSA).unwrap();
    let public = load_public(&rsa.public_pem, KeyFamily::RSA).unwrap();
    let from_jwk = load_public(&rsa_jwk(&rsa.key), KeyFamily::RSA).unwrap();
    let signature = sign_with_key(&input, &private, AlgorithmId::RS256).unwrap();
    assert_eq!(verify_with_key(&input, &signature, &public, AlgorithmId::RS256), Ok(()));
    assert_eq!(verify_with_key(&input, &signature, &from_jwk, AlgorithmId::RS256), Ok(()));
    assert_eq!(
        verify_with_key(&input, &signature, &private, AlgorithmId::RS256),
        Err(VerifyError::InvalidPublicKey)
    );
    for alg in [AlgorithmId::ES256, AlgorithmId::ES384, AlgorithmId::EdDSA] {
        assert_eq!(
            verify_with_key(&input, &signature, &public, alg),
            Err(VerifyError::InvalidPublicKey)
        );
        assert_eq!(
            verify_with_key(&input, &signature, &from_jwk, alg),
            Err(VerifyError::InvalidPublicKey)
        );
    }
    assert_eq!(
        verify_with_key(&input, &signature, &public, AlgorithmId::ES512),
        Err(VerifyError::UnsupportedAlgorithm)
    );
    assert_eq!(
        verify_with_key(&input, "not base64!!", &public, AlgorithmId::RS256),
        Err(VerifyError::MalformedBase64)
    );
    assert_eq!(
        verify_with_key(&input, &signature, &public, AlgorithmId::RS512),
        Err(VerifyError::SignatureMismatch)
    );
}

#[test]
fn a_malformed_signature_segment_is_reported_before_the_key() {
    let keys = rsa_pair();
    assert_eq!(
        check(HEADER, PAYLOAD, "not base64!!", &keys.public_pem, "RS256"),
        Err(VerifyError::MalformedBase64)
    );
    assert_eq!(
        check(HEADER, PAYLOAD, "not base64!!", "no key", "RS256"),
        Err(VerifyError::MalformedBase64)
    );
    assert!(!verify(HEADER, PAYLOAD, "not base64!!", &keys.public_pem, "RS256"));
    assert_eq!(
        check(HEADER, PAYLOAD, "c2ln", "no key", "RS256"),
        Err(VerifyError::InvalidPublicKey)
    );
    assert_eq!(
        check(HEADER, PAYLOAD, "c2ln", &keys.public_pem, "RS256"),
        Err(VerifyError::SignatureMismatch)
    );
    assert_eq!(
        check(HEADER, PAYLOAD, "", &keys.public_pem, "RS256"),
        Err(VerifyError::SignatureMismatch)
    );
}

#[test]
fn a_padded_signature_segment_is_not_accepted() {
    let keys = ed_pair();
    let signature = sign(HEADER, PAYLOAD, &keys.private_pem, "EdDSA").unwrap();
    assert_eq!(decode(&signature).unwrap().len(), 64);
    let padded = format!("{signature}==");
    assert_eq!(
        check(HEADER, PAYLOAD, &padded, &keys.public_pem, "EdDSA"),
        Err(VerifyError::MalformedBase64)
    );
}

#[test]
fn check_compact_names_what_is_wrong_with_a_token() {
    let keys = rsa_pair();
    let key = keys.public_pem.as_str();
    assert_eq!(check_compact("", key, "RS256"), Err(VerifyError::MalformedHeaderOrPayload));
    assert_eq!(check_compact("abc", key, "RS256"), Err(VerifyError::MalformedHeaderOrPayload));
    assert_eq!(check_compact("a.b", key, "RS256"), Err(VerifyError::MalformedHeaderOrPayload));
    assert_eq!(check_compact("a.b.c.d", key, "RS256"), Err(VerifyError::MalformedBase64));
    assert_eq!(check_compact("a.b.!!", key, "RS256"), Err(VerifyError::MalformedBase64));
    assert_eq!(check_compact("a.b.\u{e9}", key, "RS256"), Err(VerifyError::MalformedBase64));
    assert_eq!(check_compact("\u{e9}", key, "RS256"), Err(VerifyError::MalformedBase64));
    assert_eq!(check_compact("a.b.c2ln", "no key", "RS256"), Err(VerifyError::InvalidPublicKey));
    assert_eq!(check_compact("a.b.c2ln", key, "RS256"), Err(VerifyError::SignatureMismatch));
    for token in ["", "a.b", "a.b.c.d", "a.b.c2ln"] {
        assert!(!verify_compact(token, key, "RS256"));
        assert!(!signature_is_valid(token, key, "RS256"));
    }
}

#[test]
fn the_compact_form_takes_its_first_two_segments_as_they_stand() {
    let keys = ed_pair();
    let input = "aGVhZGVy.cGF5bG9hZA";
    let private = load_private(&keys.private_pem, KeyFamily::EdwardsCurve).unwrap();
    let signature = sign_with_key(input, &private, AlgorithmId::EdDSA).unwrap();
    let token = format!("{input}.{signature}");
    assert_eq!(check_compact(&token, &keys.public_pem, "EdDSA"), Ok(()));
    assert_eq!(check_input(input, &signature, &keys.public_pem, "EdDSA"), Ok(()));
    assert_eq!(check("header", "payload", &signature, &keys.public_pem, "EdDSA"), Ok(()));
    // padding in a segment is part of the signing input: it is not re-encoded
    let padded = format!("aGVhZGVy.cGF5bG9hZA==.{signature}");
    assert_eq!(
        check_compact(&padded, &keys.public_pem, "EdDSA"),
        Err(VerifyError::SignatureMismatch)
    );
}

#[test]
fn the_algorithm_is_the_declared_one_not_the_one_in_the_header() {
    let keys = rsa_pair();
    let header = "{\"alg\":\"none\"}";
    let signature = sign(header, PAYLOAD, &keys.private_pem, "PS256").unwrap();
    assert!(verify(header, PAYLOAD, &signature, &keys.public_pem, "PS256"));
    let token = compact_token(header, PAYLOAD, &signature);
    assert!(signature_is_valid(&token, &keys.public_pem, "PS256"));
    assert!(!signature_is_valid(&token, &keys.public_pem, "RS256"));
    let unsigned = compact_token(header, PAYLOAD, "");
    assert!(!signature_is_valid(&unsigned, &keys.public_pem, "PS256"));
}

#[test]
fn verdict_maps_each_outcome() {
    assert_eq!(verdict(Some(true)), Ok(()));
    assert_eq!(verdict(Some(false)), Err(VerifyError::SignatureMismatch));
    assert_eq!(verdict(None), Err(VerifyError::MalformedBase64));
}

#[test]
fn signature_or_error_maps_each_outcome() {
    assert_eq!(signature_or_error(Some("c2ln".to_string())), Ok("c2ln".to_string()));
    assert_eq!(signature_or_error(None), Err(SignError::InvalidKey));
}

#[test]
fn signature_or_sentinel_maps_each_result() {
    assert_eq!(signature_or_sentinel(Ok("c2ln".to_string())), "c2ln");
    assert_eq!(signature_or_sentinel(Err(SignError::InvalidKey)), "ERROR");
    assert_eq!(signature_or_sentinel(Err(SignError::UnsupportedAlgorithm)), "ERROR");
}

fn digest_of(algorithm: &str) -> MessageDigest {
    match &algorithm[2..] {
        "256" => MessageDigest::sha256(),
        "384" => MessageDigest::sha384(),
        _ => MessageDigest::sha512(),
    }
}

/// The PKCS#1 v1.5 signature of `message`, made by OpenSSL.
fn pkcs1_signature(key: &PKey<Private>, digest: MessageDigest, message: &[u8]) -> String {
    let mut signer = Signer::new(digest, key).unwrap();
    signer.update(message).unwrap();
    encode(&signer.sign_to_vec().unwrap())
}

#[test]
fn an_rs_signature_is_the_pkcs1_signature_of_the_signing_input() {
    let keys = rsa_pair();
    let input = signing_input(HEADER, PAYLOAD);
    for algorithm in ["RS256", "RS384", "RS512"] {
        let expected = pkcs1_signature(&keys.key, digest_of(algorithm), input.as_bytes());
        assert_eq!(gen_sign(HEADER, PAYLOAD, &keys.private_pem, algorithm), expected);
        assert_eq!(sign(HEADER, PAYLOAD, &keys.private_pem, algorithm), Ok(expected));
    }
}

#[test]
fn the_digest_follows_the_declared_algorithm_not_the_header() {
    let keys = rsa_pair();
    let header = "{\"alg\":\"RS256\",\"typ\":\"JWT\"}";
    let input = signing_input(header, PAYLOAD);
    let with_sha384 = pkcs1_signature(&keys.key, MessageDigest::sha384(), input.as_bytes());
    let with_sha256 = pkcs1_signature(&keys.key, MessageDigest::sha256(), input.as_bytes());
    assert_eq!(gen_sign(header, PAYLOAD, &keys.private_pem, "RS384"), with_sha384);
    assert_ne!(gen_sign(header, PAYLOAD, &keys.private_pem, "RS384"), with_sha256);
}

#[test]
fn the_header_is_signed_byte_for_byte() {
    let keys = rsa_pair();
    let tight = "{\"alg\":\"RS256\"}";
    let loose = "{ \"alg\": \"RS256\" }";
    let first = gen_sign(tight, PAYLOAD, &keys.private_pem, "RS256");
    let second = gen_sign(loose, PAYLOAD, &keys.private_pem, "RS256");
    assert_ne!(first, "ERROR");
    assert_ne!(second, "ERROR");
    assert_ne!(first, second);
    let input = signing_input(loose, PAYLOAD);
    assert_eq!(second, pkcs1_signature(&keys.key, MessageDigest::sha256(), input.as_bytes()));
}

#[test]
fn an_eddsa_signature_is_the_ed25519_signature_of_the_signing_input() {
    let keys = ed_pair();
    let header = "{\"alg\":\"EdDSA\"}";
    let input = signing_input(header, PAYLOAD);
    let mut signer = Signer::new_without_digest(&keys.key).unwrap();
    let expected = encode(&signer.sign_oneshot_to_vec(input.as_bytes()).unwrap());
    let signature = gen_sign(header, PAYLOAD, &keys.private_pem, "EdDSA");
    assert_eq!(signature.len(), 86);
    assert_eq!(signature, expected);
    assert_eq!(gen_sign(header, PAYLOAD, &keys.private_pem, "EdDSA"), signature);
}

#[test]
fn ps256_signs_with_pss_and_rs256_with_pkcs1() {
    let keys = rsa_pair();
    let input = signing_input(HEADER, PAYLOAD);
    let pss = decode(&gen_sign(HEADER, PAYLOAD, &keys.private_pem, "PS256")).unwrap();
    let pkcs1 = decode(&gen_sign(HEADER, PAYLOAD, &keys.private_pem, "RS256")).unwrap();
    let accepts = |padding: Padding, signature: &[u8]| {
        let mut verifier = Verifier::new(MessageDigest::sha256(), &keys.key).unwrap();
        verifier.set_rsa_padding(padding).unwrap();
        if padding == Padding::PKCS1_PSS {
            verifier.set_rsa_pss_saltlen(RsaPssSaltlen::DIGEST_LENGTH).unwrap();
            verifier.set_rsa_mgf1_md(MessageDigest::sha256()).unwrap();
        }
        verifier.update(input.as_bytes()).unwrap();
        verifier.verify(signature).unwrap_or(false)
    };
    assert!(accepts(Padding::PKCS1_PSS, &pss));
    assert!(!accepts(Padding::PKCS1, &pss));
    assert!(accepts(Padding::PKCS1, &pkcs1));
    assert!(!accepts(Padding::PKCS1_PSS, &pkcs1));
}

#[test]
fn gen_sign_gives_the_sentinel_for_a_key_that_does_not_load() {
    let rsa = rsa_pair();
    let ec = ec_pair(Nid::X9_62_PRIME256V1);
    let ed = ed_pair();
    for algorithm in ["RS256", "PS384", "ES256", "ES384", "EdDSA"] {
        assert_eq!(gen_sign(HEADER, PAYLOAD, "", algorithm), "ERROR");
        assert_eq!(gen_sign(HEADER, PAYLOAD, "not a key", algorithm), "ERROR");
    }
    assert_eq!(gen_sign(HEADER, PAYLOAD, &ec.public_pem, "ES256"), "ERROR");
    // a key of another family: never a signature under its own family
    for algorithm in RSA_ALGORITHMS {
        assert_eq!(gen_sign(HEADER, PAYLOAD, &ec.private_pem, algorithm), "ERROR");
        assert_eq!(gen_sign(HEADER, PAYLOAD, &ed.private_pem, algorithm), "ERROR");
    }
    for algorithm in ["ES256", "ES384", "EdDSA"] {
        assert_eq!(gen_sign(HEADER, PAYLOAD, &rsa.private_pem, algorithm), "ERROR");
    }
    assert_eq!(gen_sign(HEADER, PAYLOAD, &ed.private_pem, "ES256"), "ERROR");
    assert_eq!(gen_sign(HEADER, PAYLOAD, &ec.private_pem, "EdDSA"), "ERROR");
}

#[test]
fn a_public_key_or_a_certificate_does_not_sign() {
    let rsa = rsa_pair();
    let cert = certificate(&rsa.key);
    for algorithm in RSA_ALGORITHMS {
        assert_eq!(sign(HEADER, PAYLOAD, &rsa.public_pem, algorithm), Err(SignError::InvalidKey));
        assert_eq!(sign(HEADER, PAYLOAD, &cert, algorithm), Err(SignError::InvalidKey));
        assert_eq!(gen_sign(HEADER, PAYLOAD, &rsa.public_pem, algorithm), "ERROR");
        assert_eq!(gen_sign(HEADER, PAYLOAD, &cert, algorithm), "ERROR");
        assert_eq!(gen_sign(HEADER, PAYLOAD, &rsa_jwk(&rsa.key), algorithm), "ERROR");
    }
}

#[test]
fn a_private_key_does_not_verify() {
    let rsa = rsa_pair();
    let signature = sign(HEADER, PAYLOAD, &rsa.private_pem, "RS256").unwrap();
    assert_eq!(
        check(HEADER, PAYLOAD, &signature, &rsa.private_pem, "RS256"),
        Err(VerifyError::InvalidPublicKey)
    );
    assert!(!verify(HEADER, PAYLOAD, &signature, &rsa.private_pem, "RS256"));
}

#[test]
fn the_curve_algorithms_give_signatures_of_a_fixed_length() {
    for (algorithm, bytes, characters) in [("ES256", 64, 86), ("ES384", 96, 128), ("EdDSA", 64, 86)] {
        let keys = pair_for(algorithm);
        for payload in ["", PAYLOAD, "a longer payload, to see that the length does not follow it"] {
            let signature = gen_sign(HEADER, payload, &keys.private_pem, algorithm);
            assert_eq!(signature.len(), characters);
            assert_eq!(decode(&signature).unwrap().len(), bytes);
        }
    }
}

#[test]
fn a_signature_of_another_length_is_not_accepted() {
    let rsa = rsa_pair();
    let ec = ec_pair(Nid::X9_62_PRIME256V1);
    let ed = ed_pair();
    let from_rsa = sign(HEADER, PAYLOAD, &rsa.private_pem, "PS256").unwrap();
    let from_ec = sign(HEADER, PAYLOAD, &ec.private_pem, "ES256").unwrap();
    let from_ed = sign(HEADER, PAYLOAD, &ed.private_pem, "EdDSA").unwrap();
    assert!(from_rsa.len() >= 342);
    assert_eq!((from_ec.len(), from_ed.len()), (86, 86));
    for (signature, key, algorithm) in [
        (&from_rsa, &ec.public_pem, "ES256"),
        (&from_rsa, &ed.public_pem, "EdDSA"),
        (&from_ec, &rsa.public_pem, "RS256"),
        (&from_ed, &rsa.public_pem, "PS384"),
        (&from_ec, &ed.public_pem, "EdDSA"),
        (&from_ed, &ec.public_pem, "ES256"),
    ] {
        assert_eq!(
            check(HEADER, PAYLOAD, signature, key, algorithm),
            Err(VerifyError::SignatureMismatch)
        );
        let token = compact_token(HEADER, PAYLOAD, signature);
        assert!(!signature_is_valid(&token, key, algorithm));
    }
    // one character too few or too many
    let short = &from_ed[..85];
    let long = format!("{from_ed}A");
    assert!(!verify(HEADER, PAYLOAD, short, &ed.public_pem, "EdDSA"));
    assert!(!verify(HEADER, PAYLOAD, &long, &ed.public_pem, "EdDSA"));
    assert!(verify(HEADER, PAYLOAD, &from_ed, &ed.public_pem, "EdDSA"));
}
