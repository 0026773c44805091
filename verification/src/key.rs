//! The signing key and the one operation it performs: turning a claims
//! document into a signed RS384 JWT. The RSA arithmetic itself is done by
//! the `jsonwebtoken` crate behind the two trusted functions below; every
//! caller's contract is stated over the names given to their results.

use vstd::prelude::*;

verus! {

/// Whether a byte sequence parses as a PEM-encoded RSA private key.
/// Names the success of `jsonwebtoken::EncodingKey::from_rsa_pem`, which
/// depends on the bytes alone.
pub uninterp spec fn rsa_pem_ok(pem: Seq<u8>) -> bool;

/// The compact RS384 JWT signed with the key `pem` under key id `kid`
/// over the claims document `claims`, or `None` where signing fails.
/// Names the result of `jsonwebtoken::encode`: an RSA PKCS#1 v1.5
/// signature is a function of the key and the signed text alone.
pub uninterp spec fn rs384_jwt_of(pem: Seq<u8>, kid: Seq<char>, claims: Seq<char>) -> Option<
    Seq<char>,
>;

/// Relies on `jsonwebtoken::EncodingKey::from_rsa_pem`: whether the PEM
/// bytes parse as an RSA private key depends on the bytes alone.
#[verifier::external_body]
fn rsa_key_parses(pem: &Vec<u8>) -> (r: bool)
    ensures
        r == rsa_pem_ok(pem@),
{
    jsonwebtoken::EncodingKey::from_rsa_pem(pem.as_slice()).is_ok()
}

/// Relies on `jsonwebtoken::encode` with `Algorithm::RS384` (and on
/// `Header::new` and `serde_json::value::RawValue` to frame its inputs):
/// it signs `base64url(header).base64url(claims)` with the key, and RSA
/// PKCS#1 v1.5 signing is deterministic in the key and message.
#[verifier::external_body]
fn sign_rs384(pem: &Vec<u8>, kid: &str, claims: &str) -> (r: Option<String>)
    ensures
        match r {
            Some(token) => rs384_jwt_of(pem@, kid@, claims@) == Some(token@),
            None => rs384_jwt_of(pem@, kid@, claims@) is None,
        },
        r is Some ==> rsa_pem_ok(pem@),
{
    let key = match jsonwebtoken::EncodingKey::from_rsa_pem(pem.as_slice()) {
        Ok(k) => k,
        Err(_) => return None,
    };
    let raw = match serde_json::value::RawValue::from_string(claims.to_string()) {
        Ok(v) => v,
        Err(_) => return None,
    };
    let mut header = jsonwebtoken::Header::new(jsonwebtoken::Algorithm::RS384);
    header.kid = Some(kid.to_string());
    jsonwebtoken::encode(&header, &raw, &key).ok()
}

/// The key file could not be used: it was unreadable, or its bytes are
/// not a PEM-encoded RSA private key.
#[derive(Debug, Clone, Copy, PartialEq, Eq, Structural)]
pub enum KeyLoadError {
    Unreadable,
    Unparseable,
}

/// The claims could not be signed: the key material is absent or
/// unusable.
#[derive(Debug, Clone, Copy, PartialEq, Eq, Structural)]
pub struct SignError;

/// The signing key: PEM bytes checked at construction, or nothing. A
/// default-built key holds no material and refuses to sign; a loaded key
/// holds bytes that parsed as an RSA private key.
#[derive(Debug, Clone)]
pub struct Key {
    pem: Option<Vec<u8>>,
}

impl Default for Key {
    /// A key with no material: every signing attempt fails.
    fn default() -> (r: Key)
        ensures
            r.spec_pem() is None,
    {
        Key { pem: None }
    }
}

impl Key {
    /// The PEM bytes this key was built from, if any.
    pub closed spec fn spec_pem(self) -> Option<Seq<u8>> {
        match self.pem {
            Some(p) => Some(p@),
            None => None,
        }
    }

    /// Load a key from PEM bytes; fails fast if they do not parse as an
    /// RSA private key.
    pub fn new(pem: Vec<u8>) -> (r: Result<Key, KeyLoadError>)
        ensures
            r is Ok <==> rsa_pem_ok(pem@),
            match r {
                Ok(k) => k.spec_pem() == Some(pem@) && rsa_pem_ok(pem@),
                Err(e) => e == KeyLoadError::Unparseable,
            },
    {
        if rsa_key_parses(&pem) {
            Ok(Key { pem: Some(pem) })
        } else {
            Err(KeyLoadError::Unparseable)
        }
    }

    /// Sign a claims document under this key, with `kid` in the JWT
    /// header. A key without material fails; one with material returns
    /// exactly the token the signing name denotes.
    pub fn generate_signed_jwt(&self, kid: &str, claims: &str) -> (r: Result<String, SignError>)
        ensures
            match self.spec_pem() {
                None => r is Err,
                Some(pem) => match r {
                    Ok(token) => rs384_jwt_of(pem, kid@, claims@) == Some(token@),
                    Err(_) => rs384_jwt_of(pem, kid@, claims@) is None,
                },
            },
    {
        match &self.pem {
            Some(pem) => match sign_rs384(pem, kid, claims) {
                Some(token) => Ok(token),
                None => Err(SignError),
            },
            None => Err(SignError),
        }
    }
}

} // verus!
