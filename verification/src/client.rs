//! The authenticated API client: it owns the signing key and the token
//! cache, builds the token-exchange and resource requests, interprets the
//! responses, and decides — given the time — whether the cached bearer
//! token may be reused or must be refreshed.
//!
//! The network itself stays outside the crate. A caller that must refresh
//! performs the exchange this module describes ([`build_token_request`]
//! and [`parse_token_response`]) and hands the outcome back to
//! [`ensure_fresh_with`]; the whole check-and-refresh must run under one
//! exclusive lock so that concurrent callers serialize, which is what
//! makes the at-most-one-refresh-in-flight lemmas below apply.
//!
//! [`build_token_request`]: RedoxRequestClient::build_token_request
//! [`parse_token_response`]: RedoxRequestClient::parse_token_response
//! [`ensure_fresh_with`]: RedoxRequestClient::ensure_fresh_with

use vstd::prelude::*;

use crate::json::{json_view, obj_get, obj_index, parse_json, spec_lookup, spec_parse_json, JsonV,
    JsonValue};
use crate::key::{rs384_jwt_of, rsa_pem_ok, Key, KeyLoadError, SignError};
use crate::models::auth::{spec_decode_auth, spec_form_ok, AuthToken, AuthTokenResponse};
use crate::models::{HttpMethod, RedoxApiResource, RequestType};
use crate::util::{escape_json, dec_i64, spec_dec_int, spec_escape};

verus! {

/// The claims of a client assertion: issuer and subject are the client
/// id, and the assertion lives for five minutes from `iat`.
#[derive(Debug, Clone)]
pub struct Claims {
    pub iss: String,
    pub sub: String,
    pub iat: i64,
    pub exp: i64,
}

/// The serialized claims document, exactly: issuer, subject, issued-at
/// and expiry, in that order, with the strings escaped.
pub open spec fn spec_claims_json(iss: Seq<char>, sub: Seq<char>, iat: int, exp: int) -> Seq<
    char,
> {
    "{\"iss\":\""@ + spec_escape(iss) + "\",\"sub\":\""@ + spec_escape(sub) + "\",\"iat\":"@
        + spec_dec_int(iat) + ",\"exp\":"@ + spec_dec_int(exp) + "}"@
}

impl Claims {
    /// The serialized form of these claims.
    pub open spec fn spec_json(self) -> Seq<char> {
        spec_claims_json(self.iss@, self.sub@, self.iat as int, self.exp as int)
    }

    /// Serialize the claims to the JSON document that is signed.
    pub fn to_json(&self) -> (r: String)
        ensures
            r@ == self.spec_json(),
    {
        let mut out = String::from_str("{\"iss\":\"");
        out.append(escape_json(self.iss.as_str()).as_str());
        out.append("\",\"sub\":\"");
        out.append(escape_json(self.sub.as_str()).as_str());
        out.append("\",\"iat\":");
        out.append(dec_i64(self.iat).as_str());
        out.append(",\"exp\":");
        out.append(dec_i64(self.exp).as_str());
        out.append("}");
        proof {
            assert(out@ =~= self.spec_json());
        }
        out
    }
}

/// A cached bearer token and the absolute timestamp (seconds) at and
/// after which it must no longer be presented.
#[derive(Debug, Clone)]
pub struct Jwt {
    pub token: String,
    pub expires_at: i64,
}

/// The mathematical value of a [`Jwt`].
pub struct JwtV {
    pub token: Seq<char>,
    pub expires_at: int,
}

impl View for Jwt {
    type V = JwtV;

    open spec fn view(&self) -> JwtV {
        JwtV { token: self.token@, expires_at: self.expires_at as int }
    }
}

impl Jwt {
    /// A copy of this token: callers get snapshots, never a live
    /// reference into the cache.
    pub fn snapshot(&self) -> (r: Jwt)
        ensures
            r@ == self@,
    {
        Jwt { token: self.token.clone(), expires_at: self.expires_at }
    }

    /// A token is fresh strictly before its expiry timestamp.
    pub fn is_fresh(&self, now: i64) -> (r: bool)
        ensures
            r == (now < self.expires_at),
    {
        now < self.expires_at
    }
}

/// Why a token exchange failed: the endpoint answered outside 2xx, or
/// its body was not the expected token document.
#[derive(Debug, Clone, Copy, PartialEq, Eq, Structural)]
pub enum AuthError {
    RequestFailed(u16),
    DecodeFailed,
}

/// Why a resource dispatch failed.
#[derive(Debug, Clone, Copy, PartialEq, Eq, Structural)]
pub enum DispatchError {
    Auth(AuthError),
    Transport,
    EnvelopeDecode,
    PayloadDecode,
    UnsupportedOperation,
}

/// The client's auth state: the registered identity and the cached token.
#[derive(Debug, Clone)]
pub struct Auth {
    pub client_id: String,
    pub kid: String,
    pub jwt: Option<Jwt>,
}

/// The envelope metadata every response carries.
#[derive(Debug, Clone)]
pub struct Meta {
    pub version: String,
}

/// A response envelope: its metadata and the still-undecoded payload.
#[derive(Debug)]
pub struct GeneralApiResponse {
    pub meta: Meta,
    pub payload: JsonValue,
}

/// A decoded response for a resource: one item, or a listing.
pub enum Response<R: RedoxApiResource> {
    Single(R::Item),
    List(R::List),
}

/// The token-exchange request, ready to send: the endpoint URL and the
/// form fields to post.
#[derive(Debug, Clone)]
pub struct TokenRequest {
    pub url: String,
    pub form: Vec<(String, String)>,
}

/// A resource request, ready to send: method, URL, and the value of the
/// `Authorization` header.
#[derive(Debug, Clone)]
pub struct PreparedRequest {
    pub method: HttpMethod,
    pub url: String,
    pub authorization: String,
}

/// The envelope decoded from a response: an object whose `meta` member
/// holds a string `version`, and whose `payload` member may be any value.
pub open spec fn spec_envelope(v: JsonV) -> Option<(Seq<char>, JsonV)> {
    match v {
        JsonV::Obj(ms) => match spec_lookup(ms, "meta"@) {
            Some(JsonV::Obj(meta_ms)) => match spec_lookup(meta_ms, "version"@) {
                Some(JsonV::Str(version)) => match spec_lookup(ms, "payload"@) {
                    Some(payload) => Some((version, payload)),
                    None => None,
                },
                _ => None,
            },
            _ => None,
        },
        _ => None,
    }
}

/// Decode the envelope, taking ownership of the payload.
fn decode_envelope(v: JsonValue) -> (r: Option<GeneralApiResponse>)
    ensures
        match r {
            Some(g) => spec_envelope(json_view(v)) == Some((g.meta.version@, json_view(g.payload))),
            None => spec_envelope(json_view(v)) is None,
        },
{
    let mut ms = match v {
        JsonValue::Obj(ms) => ms,
        _ => { return None },
    };
    let version = match obj_get(&ms, &String::from_str("meta")) {
        Some(JsonValue::Obj(meta_ms)) => match obj_get(meta_ms, &String::from_str("version")) {
            Some(JsonValue::Str(s)) => s.clone(),
            _ => { return None },
        },
        _ => { return None },
    };
    let idx = match obj_index(&ms, &String::from_str("payload")) {
        Some(i) => i,
        None => { return None },
    };
    let member = ms.remove(idx);
    Some(GeneralApiResponse { meta: Meta { version }, payload: member.1 })
}

/// The resource URL: the API host, a slash, and the resource's path.
pub open spec fn spec_resource_url(base: Seq<char>, path: Seq<char>) -> Seq<char> {
    base + "/"@ + path
}

/// The `Authorization` header value carrying a bearer token.
pub open spec fn spec_bearer(token: Seq<char>) -> Seq<char> {
    "Bearer "@ + token
}

/// What a token-exchange response means, given the HTTP status, the raw
/// body and the time: a non-2xx status fails with that status; a body
/// that is not the token document fails to decode; otherwise the token
/// is cached with `expires_at = now + expires_in - 10`, ten seconds of
/// safety margin before the server-reported expiry.
pub open spec fn spec_token_outcome(status: u16, body: Seq<u8>, now: int) -> Result<
    JwtV,
    AuthError,
> {
    if !(200 <= status < 300) {
        Result::Err(AuthError::RequestFailed(status))
    } else if body.len() > usize::MAX / 4 {
        Result::Err(AuthError::DecodeFailed)
    } else {
        match spec_parse_json(body) {
            Some(v) => match spec_decode_auth(v) {
                Some(a) => if i64::MIN <= now + a.expires_in - 10 <= i64::MAX {
                    Result::Ok(JwtV { token: a.access_token, expires_at: now + a.expires_in - 10 })
                } else {
                    Result::Err(AuthError::DecodeFailed)
                },
                None => Result::Err(AuthError::DecodeFailed),
            },
            None => Result::Err(AuthError::DecodeFailed),
        }
    }
}

/// What one payload-list dispatch decodes to, given the raw body: a body
/// that is not the envelope fails as `EnvelopeDecode`; an envelope whose
/// payload is not the resource's list shape fails as `PayloadDecode`;
/// otherwise the payload is handed to the resource's decoder.
pub open spec fn spec_list_outcome<R: RedoxApiResource>(body: Seq<u8>) -> Result<
    JsonV,
    DispatchError,
> {
    if body.len() > usize::MAX / 4 {
        Result::Err(DispatchError::EnvelopeDecode)
    } else {
        match spec_parse_json(body) {
            Some(v) => match spec_envelope(v) {
                Some((version, payload)) => if R::spec_list_decodes(payload) {
                    Result::Ok(payload)
                } else {
                    Result::Err(DispatchError::PayloadDecode)
                },
                None => Result::Err(DispatchError::EnvelopeDecode),
            },
            None => Result::Err(DispatchError::EnvelopeDecode),
        }
    }
}

/// The authenticated client for one deployment: hosts, signing key, and
/// the token cache.
#[derive(Debug, Clone)]
pub struct RedoxRequestClient {
    pub base_url: String,
    pub auth_url: Option<String>,
    pub key: Key,
    pub auth: Auth,
}

impl RedoxRequestClient {
    /// Build a client for a deployment. The PEM bytes must parse as an
    /// RSA private key; nothing is cached yet.
    pub fn new(
        base_url: &str,
        auth_url: Option<&str>,
        pem: Vec<u8>,
        kid: &str,
        client_id: &str,
    ) -> (r: Result<Self, KeyLoadError>)
        ensures
            r is Ok <==> rsa_pem_ok(pem@),
            match r {
                Ok(c) => {
                    &&& c.base_url@ == base_url@
                    &&& match auth_url {
                        Some(u) => c.auth_url matches Some(x) && x@ == u@,
                        None => c.auth_url is None,
                    }
                    &&& c.key.spec_pem() == Some(pem@)
                    &&& c.auth.kid@ == kid@
                    &&& c.auth.client_id@ == client_id@
                    &&& c.auth.jwt is None
                },
                Err(e) => e == KeyLoadError::Unparseable,
            },
    {
        let key = match Key::new(pem) {
            Ok(k) => k,
            Err(e) => { return Err(e) },
        };
        let auth_url_owned = match auth_url {
            Some(u) => Some(String::from_str(u)),
            None => None,
        };
        Ok(
            RedoxRequestClient {
                base_url: String::from_str(base_url),
                auth_url: auth_url_owned,
                key,
                auth: Auth {
                    client_id: String::from_str(client_id),
                    kid: String::from_str(kid),
                    jwt: None,
                },
            },
        )
    }

    /// The host the token exchange talks to: the dedicated auth host
    /// when one was configured, otherwise the API host.
    pub open spec fn spec_auth_base(self) -> Seq<char> {
        match self.auth_url {
            Some(u) => u@,
            None => self.base_url@,
        }
    }

    /// The auth host, with its fallback to the API host.
    pub fn auth_base(&self) -> (r: &String)
        ensures
            r@ == self.spec_auth_base(),
    {
        match &self.auth_url {
            Some(u) => u,
            None => &self.base_url,
        }
    }

    /// The cache must refresh when it holds nothing, or when the cached
    /// token's expiry has been reached (`now >= expires_at`).
    pub open spec fn spec_needs_refresh(self, now: int) -> bool {
        match self.auth.jwt {
            Some(j) => now >= j.expires_at,
            None => true,
        }
    }

    /// Whether a call at `now` must perform an exchange before a token
    /// can be handed out.
    pub fn needs_refresh(&self, now: i64) -> (r: bool)
        ensures
            r == self.spec_needs_refresh(now as int),
    {
        match &self.auth.jwt {
            Some(j) => now >= j.expires_at,
            None => true,
        }
    }

    /// A snapshot of the cached token, if it may still be used at `now`.
    pub fn current_token(&self, now: i64) -> (r: Option<Jwt>)
        ensures
            match r {
                Some(t) => !self.spec_needs_refresh(now as int) && t@ == self.auth.jwt.unwrap()@,
                None => self.spec_needs_refresh(now as int),
            },
    {
        match &self.auth.jwt {
            Some(j) => if now < j.expires_at {
                Some(j.snapshot())
            } else {
                None
            },
            None => None,
        }
    }

    /// The claims document a client assertion at `now` signs: issuer and
    /// subject are the client id, and expiry is five minutes after
    /// issued-at.
    pub open spec fn spec_assertion_claims(self, now: int) -> Seq<char> {
        spec_claims_json(self.auth.client_id@, self.auth.client_id@, now, now + 300)
    }

    /// Build and sign the client assertion for `now`. Signing is pure:
    /// the token is a function of the key, the key id and the claims.
    pub fn generate_client_assertion(&self, now: i64) -> (r: Result<String, SignError>)
        requires
            now + 300 <= i64::MAX,
        ensures
            match self.key.spec_pem() {
                None => r is Err,
                Some(pem) => match r {
                    Ok(t) => rs384_jwt_of(
                        pem,
                        self.auth.kid@,
                        self.spec_assertion_claims(now as int),
                    ) == Some(t@),
                    Err(_) => rs384_jwt_of(
                        pem,
                        self.auth.kid@,
                        self.spec_assertion_claims(now as int),
                    ) is None,
                },
            },
    {
        let claims = Claims {
            iss: self.auth.client_id.clone(),
            sub: self.auth.client_id.clone(),
            iat: now,
            exp: now + 300,
        };
        let json = claims.to_json();
        self.key.generate_signed_jwt(self.auth.kid.as_str(), json.as_str())
    }

    /// Build the token-exchange request: the token endpoint under the
    /// auth host, and the client-credentials form carrying the assertion.
    pub fn build_token_request(&self, client_assertion: &str) -> (r: TokenRequest)
        ensures
            r.url@ == AuthToken::spec_token_url(self.spec_auth_base()),
            spec_form_ok(r.form@, client_assertion@),
    {
        TokenRequest {
            url: AuthToken::token_url(self.auth_base().as_str()),
            form: AuthToken::form_fields(client_assertion),
        }
    }

    /// Interpret the token endpoint's response, per
    /// [`spec_token_outcome`]: this is where a non-2xx status becomes
    /// `RequestFailed`, a bad body becomes `DecodeFailed`, and the
    /// ten-second safety margin is applied.
    pub fn parse_token_response(status: u16, body: &Vec<u8>, now: i64) -> (r: Result<
        Jwt,
        AuthError,
    >)
        ensures
            match r {
                Ok(t) => spec_token_outcome(status, body@, now as int) == Result::<
                    JwtV,
                    AuthError,
                >::Ok(t@),
                Err(e) => spec_token_outcome(status, body@, now as int) == Result::<
                    JwtV,
                    AuthError,
                >::Err(e),
            },
    {
        if status < 200 || status >= 300 {
            return Err(AuthError::RequestFailed(status));
        }
        if body.len() > usize::MAX / 4 {
            return Err(AuthError::DecodeFailed);
        }
        let v = match parse_json(body) {
            Some(v) => v,
            None => { return Err(AuthError::DecodeFailed) },
        };
        let a = match AuthTokenResponse::decode(&v) {
            Some(a) => a,
            None => { return Err(AuthError::DecodeFailed) },
        };
        let total: i128 = now as i128 + a.expires_in as i128 - 10;
        if total < i64::MIN as i128 || total > i64::MAX as i128 {
            return Err(AuthError::DecodeFailed);
        }
        Ok(Jwt { token: a.access_token, expires_at: total as i64 })
    }

    /// Replace the cached token on a successful refresh; leave the cache
    /// exactly as it was on a failed one.
    pub open spec fn spec_apply_refresh(self, fetched: Result<Jwt, AuthError>) -> (
        RedoxRequestClient,
        Result<JwtV, AuthError>,
    ) {
        match fetched {
            Ok(t) => (
                RedoxRequestClient { auth: Auth { jwt: Some(t), ..self.auth }, ..self },
                Result::Ok(t@),
            ),
            Err(e) => (self, Result::Err(e)),
        }
    }

    /// The whole check-and-refresh, as a function of the starting state,
    /// the time, and the exchange outcome: a fresh cached token is
    /// returned unchanged and the exchange outcome is not consulted;
    /// otherwise the outcome is applied. The third component says
    /// whether the call performed an exchange.
    pub open spec fn spec_ensure_fresh(
        self,
        now: int,
        fetched: Result<Jwt, AuthError>,
    ) -> (RedoxRequestClient, Result<JwtV, AuthError>, bool) {
        if !self.spec_needs_refresh(now) {
            (self, Result::Ok(self.auth.jwt.unwrap()@), false)
        } else {
            let (c, r) = self.spec_apply_refresh(fetched);
            (c, r, true)
        }
    }

    /// Ensure a fresh token, given the outcome `fetched` of the exchange
    /// the caller performed (the caller only performs one when
    /// [`needs_refresh`] said so; a fresh cache ignores `fetched`). The
    /// caller holds its exclusive lock across the whole operation.
    ///
    /// [`needs_refresh`]: RedoxRequestClient::needs_refresh
    pub fn ensure_fresh_with(&mut self, now: i64, fetched: Result<Jwt, AuthError>) -> (r: Result<
        Jwt,
        AuthError,
    >)
        ensures
            ({
                let (c2, r2, exchanged) = old(self).spec_ensure_fresh(now as int, fetched);
                &&& *final(self) == c2
                &&& match (r, r2) {
                    (Ok(a), Ok(b)) => a@ == b,
                    (Err(a), Err(b)) => a == b,
                    _ => false,
                }
                &&& exchanged == old(self).spec_needs_refresh(now as int)
            }),
    {
        let fresh = match &self.auth.jwt {
            Some(j) => now < j.expires_at,
            None => false,
        };
        if fresh {
            let token = match &self.auth.jwt {
                Some(j) => j.snapshot(),
                None => { unreached() },
            };
            Ok(token)
        } else {
            match fetched {
                Ok(t) => {
                    let token = t.snapshot();
                    self.auth.jwt = Some(t);
                    Ok(token)
                },
                Err(e) => Err(e),
            }
        }
    }

    /// Build a resource request: the concrete URL under the API host and
    /// the bearer header. The one implemented request kind is the
    /// listing; a resource whose request is not a GET is refused
    /// explicitly, never silently skipped.
    pub fn prepare_request<R: RedoxApiResource>(
        &self,
        request_type: RequestType,
        resource: &R,
        token: &Jwt,
    ) -> (r: Result<PreparedRequest, DispatchError>)
        ensures
            match r {
                Ok(p) => {
                    &&& request_type == RequestType::List
                    &&& resource.spec_list_method() == HttpMethod::Get
                    &&& p.method == HttpMethod::Get
                    &&& p.url@ == spec_resource_url(self.base_url@, resource.spec_list_path())
                    &&& p.authorization@ == spec_bearer(token.token@)
                },
                Err(e) => e == DispatchError::UnsupportedOperation && resource.spec_list_method()
                    != HttpMethod::Get,
            },
    {
        let parts = match request_type {
            RequestType::List => resource.build_list_request(),
        };
        match parts.method {
            HttpMethod::Get => {
                let url = String::from_str(self.base_url.as_str()).concat("/").concat(
                    parts.path.as_str(),
                );
                let authorization = String::from_str("Bearer ").concat(token.token.as_str());
                Ok(PreparedRequest { method: HttpMethod::Get, url, authorization })
            },
            HttpMethod::Post => Err(DispatchError::UnsupportedOperation),
        }
    }

    /// Decode a list response body: unwrap the envelope, then hand the
    /// payload to the resource's decoder, per [`spec_list_outcome`].
    pub fn decode_list_response<R: RedoxApiResource>(body: &Vec<u8>) -> (r: Result<
        Response<R>,
        DispatchError,
    >)
        ensures
            match r {
                Ok(resp) => {
                    &&& spec_list_outcome::<R>(body@) is Ok
                    &&& match resp {
                        Response::List(l) => R::spec_list_value(
                            spec_list_outcome::<R>(body@).unwrap(),
                            l,
                        ),
                        Response::Single(_) => false,
                    }
                },
                Err(e) => spec_list_outcome::<R>(body@) == Result::<JsonV, DispatchError>::Err(e),
            },
    {
        if body.len() > usize::MAX / 4 {
            return Err(DispatchError::EnvelopeDecode);
        }
        let v = match parse_json(body) {
            Some(v) => v,
            None => { return Err(DispatchError::EnvelopeDecode) },
        };
        let envelope = match decode_envelope(v) {
            Some(g) => g,
            None => { return Err(DispatchError::EnvelopeDecode) },
        };
        match R::decode_list(&envelope.payload) {
            Some(l) => Ok(Response::List(l)),
            None => Err(DispatchError::PayloadDecode),
        }
    }
}

/// Total number of exchanges performed by `n` serialized callers, each
/// arriving at `now` and each — were it to refresh — observing the same
/// exchange outcome `fetched`.
pub open spec fn spec_serve_exchanges(
    c: RedoxRequestClient,
    now: int,
    fetched: Result<Jwt, AuthError>,
    n: nat,
) -> int
    decreases n,
{
    if n == 0 {
        0
    } else {
        let (c1, r1, x1) = c.spec_ensure_fresh(now, fetched);
        spec_serve_exchanges(c1, now, fetched, (n - 1) as nat) + if x1 {
            1int
        } else {
            0int
        }
    }
}

/// Whether each of `n` serialized callers receives exactly the token `t`.
pub open spec fn spec_serve_all_get(
    c: RedoxRequestClient,
    now: int,
    fetched: Result<Jwt, AuthError>,
    n: nat,
    t: JwtV,
) -> bool
    decreases n,
{
    if n == 0 {
        true
    } else {
        let (c1, r1, x1) = c.spec_ensure_fresh(now, fetched);
        (match r1 {
            Result::Ok(v) => v == t,
            Result::Err(_) => false,
        }) && spec_serve_all_get(c1, now, fetched, (n - 1) as nat, t)
    }
}

/// Token reuse: while the cached token is fresh, every call returns that
/// same token without consulting the exchange, and the cache does not
/// change — so any number of consecutive calls performs no exchange at
/// all.
pub proof fn lemma_token_reuse(
    c: RedoxRequestClient,
    now1: int,
    now2: int,
    f1: Result<Jwt, AuthError>,
    f2: Result<Jwt, AuthError>,
)
    requires
        c.auth.jwt is Some,
        now1 < c.auth.jwt.unwrap().expires_at,
        now2 < c.auth.jwt.unwrap().expires_at,
    ensures
        ({
            let (c1, r1, x1) = c.spec_ensure_fresh(now1, f1);
            let (c2, r2, x2) = c1.spec_ensure_fresh(now2, f2);
            &&& !x1 && !x2
            &&& c1 == c && c2 == c
            &&& r1 == Result::<JwtV, AuthError>::Ok(c.auth.jwt.unwrap()@)
            &&& r2 == r1
        }),
{
}

/// Refresh on expiry: a call at or past the cached token's expiry (or on
/// an empty cache) performs exactly one exchange.
pub proof fn lemma_refresh_on_expiry(
    c: RedoxRequestClient,
    now: int,
    fetched: Result<Jwt, AuthError>,
)
    requires
        c.auth.jwt is Some,
        now >= c.auth.jwt.unwrap().expires_at,
    ensures
        ({
            let (c1, r1, x1) = c.spec_ensure_fresh(now, fetched);
            x1
        }),
        spec_serve_exchanges(c, now, fetched, 1) == 1,
{
    let (c1, r1, x1) = c.spec_ensure_fresh(now, fetched);
    assert(spec_serve_exchanges(c1, now, fetched, 0) == 0);
}

/// Safety margin: a 2xx response whose document says `expires_in = 300`
/// is cached with `expires_at = now + 290`; a client holding that token
/// must refresh at `now + 291` and must not at `now + 289`.
pub proof fn lemma_safety_margin(
    status: u16,
    body: Seq<u8>,
    now: int,
    t: JwtV,
    c: RedoxRequestClient,
)
    requires
        spec_token_outcome(status, body, now) == Result::<JwtV, AuthError>::Ok(t),
        (match spec_parse_json(body) {
            Some(v) => match spec_decode_auth(v) {
                Some(a) => a.expires_in == 300,
                None => false,
            },
            None => false,
        }),
        c.auth.jwt matches Some(j) && j@ == t,
    ensures
        t.expires_at == now + 290,
        c.spec_needs_refresh(now + 291),
        c.spec_needs_refresh(now + 290),
        !c.spec_needs_refresh(now + 289),
{
}

/// Serialized refresh: starting from an empty cache, `n` callers served
/// one at a time — as the exclusive lock arranges — perform exactly one
/// exchange in total, and every caller receives the one token that the
/// exchange produced.
pub proof fn lemma_serialized_refresh(c: RedoxRequestClient, now: int, t: Jwt, n: nat)
    requires
        c.auth.jwt is None,
        now < t@.expires_at,
        n >= 1,
    ensures
        spec_serve_exchanges(c, now, Result::Ok(t), n) == 1,
        spec_serve_all_get(c, now, Result::Ok(t), n, t@),
{
    let (c1, r1, x1) = c.spec_ensure_fresh(now, Result::Ok(t));
    lemma_valid_cache_serves(c1, now, Result::Ok(t), (n - 1) as nat);
}

/// While the cache holds a fresh token, any number of serialized callers
/// perform no exchange and all receive that token.
pub proof fn lemma_valid_cache_serves(
    c: RedoxRequestClient,
    now: int,
    fetched: Result<Jwt, AuthError>,
    n: nat,
)
    requires
        c.auth.jwt is Some,
        now < c.auth.jwt.unwrap().expires_at,
    ensures
        spec_serve_exchanges(c, now, fetched, n) == 0,
        spec_serve_all_get(c, now, fetched, n, c.auth.jwt.unwrap()@),
    decreases n,
{
    if n > 0 {
        let (c1, r1, x1) = c.spec_ensure_fresh(now, fetched);
        lemma_valid_cache_serves(c1, now, fetched, (n - 1) as nat);
    }
}

/// Failure isolation: an exchange that answers 401 surfaces as
/// `RequestFailed(401)`, and a failed refresh leaves the cache — and any
/// token it held — exactly as it was.
pub proof fn lemma_failure_isolation(
    c: RedoxRequestClient,
    now: int,
    body: Seq<u8>,
)
    requires
        c.spec_needs_refresh(now),
    ensures
        spec_token_outcome(401, body, now) == Result::<JwtV, AuthError>::Err(
            AuthError::RequestFailed(401),
        ),
        ({
            let (c1, r1, x1) = c.spec_ensure_fresh(
                now,
                Result::Err(AuthError::RequestFailed(401)),
            );
            &&& c1 == c
            &&& r1 == Result::<JwtV, AuthError>::Err(AuthError::RequestFailed(401))
        }),
{
}

} // verus!
