//! The client assertion: claims shape, escaping, and a signing
//! round-trip checked against the real verifier. The test key pair is
//! assembled at run time from two fixed structured primes, so no key
//! file or PEM block needs to ship with the tests.

use redox_commander::client::{Claims, RedoxRequestClient};
use redox_commander::key::{Key, KeyLoadError};
use redox_commander::util::escape_json;
use rsa::pkcs8::EncodePrivateKey;
use rsa::traits::PublicKeyParts;
use rsa::BigUint;

/// The two fixed test primes are structured, not secret:
/// `p = 2^1024 - P_OFFSET` and `q = 2^1023 + Q_OFFSET` are both prime,
/// and together they form a 2048-bit RSA key that only exercises the
/// signing path of these tests.
const P_OFFSET: u32 = 105;

const Q_OFFSET: u32 = 1155;

/// The test key pair: the PKCS#8 PEM of the private key, and the public
/// modulus and exponent for verification.
fn test_key_material() -> (Vec<u8>, Vec<u8>, Vec<u8>) {
    let one = BigUint::from(1u8);
    let p = (one.clone() << 1024usize) - BigUint::from(P_OFFSET);
    let q = (one << 1023usize) + BigUint::from(Q_OFFSET);
    let e = BigUint::from(65537u32);
    let key = rsa::RsaPrivateKey::from_p_q(p, q, e).expect("test primes form an RSA key");
    let pem = key
        .to_pkcs8_pem(rsa::pkcs8::LineEnding::LF)
        .expect("key encodes to PKCS#8")
        .as_bytes()
        .to_vec();
    (pem, key.n().to_bytes_be(), key.e().to_bytes_be())
}

fn test_client() -> RedoxRequestClient {
    let (pem, _, _) = test_key_material();
    RedoxRequestClient::new("https://api.example.test", None, pem, "k1", "abc")
        .expect("test key must load")
}

fn unix_now() -> i64 {
    std::time::SystemTime::now()
        .duration_since(std::time::UNIX_EPOCH)
        .unwrap()
        .as_secs() as i64
}

#[test]
fn claims_serialize_exactly() {
    let claims = Claims {
        iss: "abc".to_string(),
        sub: "abc".to_string(),
        iat: 1000,
        exp: 1300,
    };
    assert_eq!(
        claims.to_json(),
        "{\"iss\":\"abc\",\"sub\":\"abc\",\"iat\":1000,\"exp\":1300}"
    );
}

#[test]
fn claims_escape_quotes_and_backslashes() {
    let claims = Claims {
        iss: "a\"b".to_string(),
        sub: "c\\d".to_string(),
        iat: -5,
        exp: 0,
    };
    assert_eq!(
        claims.to_json(),
        "{\"iss\":\"a\\\"b\",\"sub\":\"c\\\\d\",\"iat\":-5,\"exp\":0}"
    );
}

#[test]
fn escape_handles_control_characters() {
    assert_eq!(escape_json("plain"), "plain");
    assert_eq!(escape_json("a\nb"), "a\\u000ab");
    assert_eq!(escape_json("\u{1}"), "\\u0001");
    assert_eq!(escape_json("caf\u{e9}"), "caf\u{e9}");
}

#[test]
fn key_rejects_garbage_pem() {
    match Key::new(b"not a pem".to_vec()) {
        Err(KeyLoadError::Unparseable) => {}
        other => panic!("expected Unparseable, got {:?}", other),
    }
}

#[test]
fn key_accepts_rsa_pem() {
    let (pem, _, _) = test_key_material();
    assert!(Key::new(pem).is_ok());
}

#[test]
fn keyless_signing_fails() {
    let key = Key::default();
    assert!(key.generate_signed_jwt("k1", "{}").is_err());
}

#[test]
fn assertion_round_trip_through_verifier() {
    let (_, n, e) = test_key_material();
    let client = test_client();
    let now = unix_now();
    let assertion = client
        .generate_client_assertion(now)
        .expect("signing must succeed with a valid key");

    // Header: RS384, with the configured key id.
    let header = jsonwebtoken::decode_header(&assertion).unwrap();
    assert_eq!(header.alg, jsonwebtoken::Algorithm::RS384);
    assert_eq!(header.kid.as_deref(), Some("k1"));

    // Signature and claims, checked with the matching public key.
    let key = jsonwebtoken::DecodingKey::from_rsa_raw_components(&n, &e);
    let validation = jsonwebtoken::Validation::new(jsonwebtoken::Algorithm::RS384);
    let data =
        jsonwebtoken::decode::<serde_json::Value>(&assertion, &key, &validation).unwrap();
    assert_eq!(data.claims["iss"], "abc");
    assert_eq!(data.claims["sub"], "abc");
    assert_eq!(data.claims["iat"], now);
    assert_eq!(data.claims["exp"], now + 300);
}

#[test]
fn assertion_signature_binds_to_key() {
    let (_, n, e) = test_key_material();
    let client = test_client();
    let now = unix_now();
    let assertion = client.generate_client_assertion(now).unwrap();
    // Tampering with the payload must break the signature.
    let mut parts: Vec<&str> = assertion.split('.').collect();
    assert_eq!(parts.len(), 3);
    let forged_payload = "eyJmb3JnZWQiOnRydWV9";
    parts[1] = forged_payload;
    let forged = parts.join(".");
    let key = jsonwebtoken::DecodingKey::from_rsa_raw_components(&n, &e);
    let validation = jsonwebtoken::Validation::new(jsonwebtoken::Algorithm::RS384);
    assert!(jsonwebtoken::decode::<serde_json::Value>(&forged, &key, &validation).is_err());
}
