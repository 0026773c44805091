//! The token cache: reuse while fresh, refresh at expiry, the ten-second
//! safety margin, and failure isolation.

use redox_commander::client::{AuthError, Jwt, RedoxRequestClient};

fn client_with_token(expires_at: i64) -> RedoxRequestClient {
    let mut c = bare_client();
    c.auth.jwt = Some(Jwt {
        token: "cached".to_string(),
        expires_at,
    });
    c
}

fn bare_client() -> RedoxRequestClient {
    // The cache logic never signs, so a key without material serves.
    RedoxRequestClient {
        base_url: "https://api.example.test".to_string(),
        auth_url: None,
        key: redox_commander::key::Key::default(),
        auth: redox_commander::client::Auth {
            client_id: "cid".to_string(),
            kid: "kid".to_string(),
            jwt: None,
        },
    }
}

#[test]
fn fresh_token_is_reused_without_exchange() {
    let mut c = client_with_token(1000);
    // The exchange outcome would replace the token; a fresh cache must
    // ignore it entirely.
    let decoy = Ok(Jwt {
        token: "decoy".to_string(),
        expires_at: 9999,
    });
    assert!(!c.needs_refresh(999));
    let got = c.ensure_fresh_with(999, decoy).unwrap();
    assert_eq!(got.token, "cached");
    assert_eq!(got.expires_at, 1000);
    // A second call still reuses the same token.
    let decoy2 = Ok(Jwt {
        token: "decoy2".to_string(),
        expires_at: 9999,
    });
    let got2 = c.ensure_fresh_with(999, decoy2).unwrap();
    assert_eq!(got2.token, "cached");
}

#[test]
fn empty_cache_stores_exchange_outcome() {
    let mut c = bare_client();
    assert!(c.needs_refresh(0));
    let fetched = Ok(Jwt {
        token: "minted".to_string(),
        expires_at: 500,
    });
    let got = c.ensure_fresh_with(0, fetched).unwrap();
    assert_eq!(got.token, "minted");
    match &c.auth.jwt {
        Some(j) => assert_eq!(j.token, "minted"),
        None => panic!("token must be cached"),
    }
}

#[test]
fn refresh_on_expiry_at_and_past_boundary() {
    // now == expires_at is already stale.
    let c = client_with_token(1000);
    assert!(c.needs_refresh(1000));
    assert!(c.needs_refresh(1001));
    assert!(!c.needs_refresh(999));
}

#[test]
fn stale_cache_is_replaced_on_success() {
    let mut c = client_with_token(1000);
    let fetched = Ok(Jwt {
        token: "fresh".to_string(),
        expires_at: 2000,
    });
    let got = c.ensure_fresh_with(1500, fetched).unwrap();
    assert_eq!(got.token, "fresh");
    match &c.auth.jwt {
        Some(j) => {
            assert_eq!(j.token, "fresh");
            assert_eq!(j.expires_at, 2000);
        }
        None => panic!("token must be cached"),
    }
}

#[test]
fn safety_margin_is_ten_seconds() {
    let now = 1_000_000;
    let body = br#"{"access_token":"tok","token_type":"bearer","expires_in":300,"scope":"all"}"#.to_vec();
    let jwt = RedoxRequestClient::parse_token_response(200, &body, now).unwrap();
    assert_eq!(jwt.expires_at, now + 290);
    // A call 291 seconds later must refresh; 289 seconds later must not.
    let c = client_with_token(jwt.expires_at);
    assert!(c.needs_refresh(now + 291));
    assert!(c.needs_refresh(now + 290));
    assert!(!c.needs_refresh(now + 289));
}

#[test]
fn non_2xx_status_is_request_failed() {
    let body = br#"{"access_token":"tok","token_type":"bearer","expires_in":300,"scope":"all"}"#.to_vec();
    match RedoxRequestClient::parse_token_response(401, &body, 0) {
        Err(AuthError::RequestFailed(s)) => assert_eq!(s, 401),
        other => panic!("expected RequestFailed(401), got {:?}", other),
    }
    match RedoxRequestClient::parse_token_response(500, &body, 0) {
        Err(AuthError::RequestFailed(s)) => assert_eq!(s, 500),
        other => panic!("expected RequestFailed(500), got {:?}", other),
    }
}

#[test]
fn malformed_body_is_decode_failed() {
    // Not JSON at all.
    match RedoxRequestClient::parse_token_response(200, &b"not json".to_vec(), 0) {
        Err(AuthError::DecodeFailed) => {}
        other => panic!("expected DecodeFailed, got {:?}", other),
    }
    // JSON, but missing a required member.
    let body = br#"{"access_token":"tok","token_type":"bearer","scope":"all"}"#.to_vec();
    match RedoxRequestClient::parse_token_response(200, &body, 0) {
        Err(AuthError::DecodeFailed) => {}
        other => panic!("expected DecodeFailed, got {:?}", other),
    }
    // expires_in of the wrong type.
    let body = br#"{"access_token":"tok","token_type":"bearer","expires_in":"300","scope":"all"}"#.to_vec();
    match RedoxRequestClient::parse_token_response(200, &body, 0) {
        Err(AuthError::DecodeFailed) => {}
        other => panic!("expected DecodeFailed, got {:?}", other),
    }
}

#[test]
fn overflowing_expiry_is_decode_failed() {
    let body = br#"{"access_token":"tok","token_type":"bearer","expires_in":9223372036854775807,"scope":"all"}"#.to_vec();
    match RedoxRequestClient::parse_token_response(200, &body, 100) {
        Err(AuthError::DecodeFailed) => {}
        other => panic!("expected DecodeFailed, got {:?}", other),
    }
}

#[test]
fn failed_refresh_leaves_cache_untouched() {
    let mut c = client_with_token(1000);
    // Stale at now = 1500; the exchange fails with 401.
    let got = c.ensure_fresh_with(1500, Err(AuthError::RequestFailed(401)));
    match got {
        Err(AuthError::RequestFailed(401)) => {}
        other => panic!("expected RequestFailed(401), got {:?}", other),
    }
    // The old token is still there, untouched, and usable before its own
    // expiry if a later manual retry succeeds.
    match &c.auth.jwt {
        Some(j) => {
            assert_eq!(j.token, "cached");
            assert_eq!(j.expires_at, 1000);
        }
        None => panic!("cache must keep the old token"),
    }
    assert!(!c.needs_refresh(999));
    let retried = c.ensure_fresh_with(
        1500,
        Ok(Jwt {
            token: "second-try".to_string(),
            expires_at: 3000,
        }),
    );
    assert_eq!(retried.unwrap().token, "second-try");
}

#[test]
fn serialized_callers_share_one_exchange() {
    // Five callers, served one at a time as the lock arranges, arriving
    // while the first caller's token is still fresh: one exchange total,
    // and every caller receives that token.
    let mut c = bare_client();
    let now = 100;
    let mut exchanges = 0;
    for _ in 0..5 {
        let fetched = if c.needs_refresh(now) {
            exchanges += 1;
            Ok(Jwt {
                token: "minted".to_string(),
                expires_at: 500,
            })
        } else {
            // Never consulted on a fresh cache.
            Err(AuthError::DecodeFailed)
        };
        let got = c.ensure_fresh_with(now, fetched).unwrap();
        assert_eq!(got.token, "minted");
        assert!(got.is_fresh(now));
    }
    assert_eq!(exchanges, 1);
}

#[test]
fn current_token_is_a_snapshot() {
    let c = client_with_token(1000);
    let t = c.current_token(500).unwrap();
    assert_eq!(t.token, "cached");
    assert!(c.current_token(1000).is_none());
}
