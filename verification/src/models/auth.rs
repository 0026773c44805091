//! The token-exchange wire shape: the endpoint a signed assertion is
//! posted to, the form fields of that post, and the response record it
//! returns.

use vstd::prelude::*;

use crate::json::{obj_get, spec_lookup, JsonV, JsonValue};

verus! {

/// The token endpoint's successful JSON response.
#[derive(Debug, Clone)]
pub struct AuthTokenResponse {
    pub access_token: String,
    pub token_type: String,
    pub expires_in: i64,
    pub scope: String,
}

/// The mathematical value of an [`AuthTokenResponse`].
pub struct AuthTokenResponseV {
    pub access_token: Seq<char>,
    pub token_type: Seq<char>,
    pub expires_in: int,
    pub scope: Seq<char>,
}

impl View for AuthTokenResponse {
    type V = AuthTokenResponseV;

    open spec fn view(&self) -> AuthTokenResponseV {
        AuthTokenResponseV {
            access_token: self.access_token@,
            token_type: self.token_type@,
            expires_in: self.expires_in as int,
            scope: self.scope@,
        }
    }
}

/// The token endpoint's response body: an object with `access_token`,
/// `token_type` and `scope` strings and an integer `expires_in` (which
/// the grammar already bounds to `i64`). Unknown members are ignored.
pub open spec fn spec_decode_auth(v: JsonV) -> Option<AuthTokenResponseV> {
    match v {
        JsonV::Obj(ms) => match spec_lookup(ms, "access_token"@) {
            Some(JsonV::Str(access_token)) => match spec_lookup(ms, "token_type"@) {
                Some(JsonV::Str(token_type)) => match spec_lookup(ms, "expires_in"@) {
                    Some(JsonV::Int(expires_in)) => match spec_lookup(ms, "scope"@) {
                        Some(JsonV::Str(scope)) => if i64::MIN <= expires_in <= i64::MAX {
                            Some(
                                AuthTokenResponseV {
                                    access_token,
                                    token_type,
                                    expires_in,
                                    scope,
                                },
                            )
                        } else {
                            None
                        },
                        _ => None,
                    },
                    _ => None,
                },
                _ => None,
            },
            _ => None,
        },
        _ => None,
    }
}

impl AuthTokenResponse {
    /// Decode the token endpoint's response body.
    pub fn decode(v: &JsonValue) -> (r: Option<AuthTokenResponse>)
        ensures
            match r {
                Some(a) => spec_decode_auth(v@) == Some(a@),
                None => spec_decode_auth(v@) is None,
            },
    {
        let ms = match v {
            JsonValue::Obj(ms) => ms,
            _ => { return None },
        };
        let access_token = match obj_get(ms, &String::from_str("access_token")) {
            Some(JsonValue::Str(s)) => s.clone(),
            _ => { return None },
        };
        let token_type = match obj_get(ms, &String::from_str("token_type")) {
            Some(JsonValue::Str(s)) => s.clone(),
            _ => { return None },
        };
        let expires_in = match obj_get(ms, &String::from_str("expires_in")) {
            Some(JsonValue::Int(n)) => *n,
            _ => { return None },
        };
        let scope = match obj_get(ms, &String::from_str("scope")) {
            Some(JsonValue::Str(s)) => s.clone(),
            _ => { return None },
        };
        Some(AuthTokenResponse { access_token, token_type, expires_in, scope })
    }
}

/// The exchange's form body, exactly: a client-credentials grant whose
/// client assertion is the given signed JWT.
pub open spec fn spec_form_ok(form: Seq<(String, String)>, assertion: Seq<char>) -> bool {
    &&& form.len() == 3
    &&& form[0].0@ == "grant_type"@
    &&& form[0].1@ == "client_credentials"@
    &&& form[1].0@ == "client_assertion_type"@
    &&& form[1].1@ == "urn:ietf:params:oauth:client-assertion-type:jwt-bearer"@
    &&& form[2].0@ == "client_assertion"@
    &&& form[2].1@ == assertion
}

/// Builder of the token-exchange request: an OAuth2 client-credentials
/// grant carrying the signed JWT as client assertion.
pub struct AuthToken;

impl AuthToken {
    /// The token endpoint under an auth host.
    pub open spec fn spec_token_url(base: Seq<char>) -> Seq<char> {
        base + "/v2/auth/token"@
    }

    /// The URL the exchange posts to: the token endpoint under `base_url`.
    pub fn token_url(base_url: &str) -> (r: String)
        ensures
            r@ == Self::spec_token_url(base_url@),
    {
        String::from_str(base_url).concat("/v2/auth/token")
    }

    /// The form fields of the exchange: a client-credentials grant whose
    /// client assertion is the signed JWT.
    pub fn form_fields(client_assertion: &str) -> (r: Vec<(String, String)>)
        ensures
            spec_form_ok(r@, client_assertion@),
    {
        let mut v: Vec<(String, String)> = Vec::new();
        v.push((
            String::from_str("grant_type"),
            String::from_str("client_credentials"),
        ));
        v.push((
            String::from_str("client_assertion_type"),
            String::from_str("urn:ietf:params:oauth:client-assertion-type:jwt-bearer"),
        ));
        v.push((String::from_str("client_assertion"), String::from_str(client_assertion)));
        v
    }
}

} // verus!
