use impala_bridge::auth::authenticate;
use impala_bridge::cache::CounterCache;
use impala_bridge::constants::{REFRESH_TOKEN_TTL_SECS, TEMPORAL_TOKEN_TTL_SECS};
use impala_bridge::credentials::{AccountDirectory, CredentialStore};
use impala_bridge::error::AppError;
use impala_bridge::models::{AuthenticateRequest, TokenRequest};
use impala_bridge::token::{token, TokenIssuer};

fn now_timestamp() -> usize {
    chrono::Utc::now().timestamp().max(0) as usize
}

/// Register a credential through the authenticate path.
fn seeded_credentials(account: &str, password: &str) -> CredentialStore {
    let mut cache = CounterCache::new();
    let mut creds = CredentialStore::new();
    let mut accounts = AccountDirectory::new();
    accounts.add(account.to_string());
    let req = AuthenticateRequest {
        account_id: account.to_string(),
        password: password.to_string(),
    };
    let r = authenticate(&mut cache, &mut creds, &accounts, &req, 1_000).unwrap();
    assert_eq!(r.action, "registered");
    creds
}

const TEST_SECRET: &str = "test-secret-key-for-unit-tests";

fn refresh_request(rt: String) -> TokenRequest {
    TokenRequest { username: None, password: None, refresh_token: Some(rt) }
}

fn password_request(username: &str, password: &str) -> TokenRequest {
    TokenRequest {
        username: Some(username.to_string()),
        password: Some(password.to_string()),
        refresh_token: None,
    }
}

#[test]
fn test_jwt_encode_decode_temporal() {
    let issuer = TokenIssuer::new(TEST_SECRET.to_string());
    let now = now_timestamp();
    let token = issuer
        .issue("testuser", "temporal", TEMPORAL_TOKEN_TTL_SECS, now)
        .expect("Failed to encode JWT");
    let decoded = issuer.verify(token.as_str(), now).expect("Failed to decode JWT");
    assert_eq!(decoded.sub, "testuser");
    assert_eq!(decoded.token_type, "temporal");
}

#[test]
fn test_jwt_encode_decode_refresh() {
    let issuer = TokenIssuer::new(TEST_SECRET.to_string());
    let now = now_timestamp();
    let token = issuer
        .issue("testuser", "refresh", REFRESH_TOKEN_TTL_SECS, now)
        .expect("Failed to encode JWT");
    let decoded = issuer.verify(token.as_str(), now).expect("Failed to decode JWT");
    assert_eq!(decoded.sub, "testuser");
    assert_eq!(decoded.token_type, "refresh");
}

#[test]
fn test_jwt_expired_token_rejected() {
    let issuer = TokenIssuer::new(TEST_SECRET.to_string());
    // Issued at 1000, expired at 1001.
    let token = issuer.issue("testuser", "temporal", 1, 1000).expect("Failed to encode JWT");
    let result = issuer.verify(token.as_str(), now_timestamp());
    assert!(result.is_err());
}

#[test]
fn test_jwt_wrong_secret_rejected() {
    let issuer = TokenIssuer::new(TEST_SECRET.to_string());
    let other = TokenIssuer::new("wrong-secret".to_string());
    let now = now_timestamp();
    let token = issuer
        .issue("testuser", "temporal", TEMPORAL_TOKEN_TTL_SECS, now)
        .expect("Failed to encode JWT");
    let result = other.verify(token.as_str(), now);
    assert!(result.is_err());
}

#[test]
fn wrong_token_type_is_not_unauthorized() {
    let mut cache = CounterCache::new();
    let creds = CredentialStore::new();
    let issuer = TokenIssuer::new(TEST_SECRET.to_string());
    let now = 1_000_000;

    // A cryptographically valid temporal token presented on the refresh
    // flow: mis-paired, not unauthorized.
    let temporal = issuer.issue("subj", "temporal", TEMPORAL_TOKEN_TTL_SECS, now).unwrap();
    let r = token(&mut cache, &creds, &issuer, &refresh_request(temporal), now).unwrap();
    assert!(!r.success);
    assert_eq!(r.message, "Invalid token type");
    assert!(r.refresh_token.is_none());
    assert!(r.temporal_token.is_none());
}

#[test]
fn refresh_exchange_preserves_subject_and_ttl() {
    let mut cache = CounterCache::new();
    let creds = CredentialStore::new();
    let issuer = TokenIssuer::new(TEST_SECRET.to_string());
    let now = 1_000_000;

    let refresh = issuer.issue("subj-9", "refresh", REFRESH_TOKEN_TTL_SECS, now).unwrap();
    let exchange_time = now + 500;
    let r = token(&mut cache, &creds, &issuer, &refresh_request(refresh), exchange_time).unwrap();
    assert!(r.success);
    assert_eq!(r.message, "Temporal token issued");
    assert!(r.refresh_token.is_none());

    let minted = r.temporal_token.expect("temporal token missing");
    let claims = issuer.verify(minted.as_str(), exchange_time).unwrap();
    assert_eq!(claims.sub, "subj-9");
    assert_eq!(claims.token_type, "temporal");
    assert_eq!(claims.iat, exchange_time);
    assert_eq!(claims.exp, claims.iat + 3600);
}

#[test]
fn expired_refresh_token_is_unauthorized() {
    let mut cache = CounterCache::new();
    let creds = CredentialStore::new();
    let issuer = TokenIssuer::new(TEST_SECRET.to_string());

    // Expired at 1010, presented at 2000.
    let refresh = issuer.issue("subj", "refresh", 10, 1000).unwrap();
    let r = token(&mut cache, &creds, &issuer, &refresh_request(refresh), 2000);
    assert!(matches!(r, Err(AppError::Unauthorized)));
}

#[test]
fn garbage_refresh_token_is_unauthorized() {
    let mut cache = CounterCache::new();
    let creds = CredentialStore::new();
    let issuer = TokenIssuer::new(TEST_SECRET.to_string());
    let r = token(&mut cache, &creds, &issuer, &refresh_request("not-a-jwt".to_string()), 1000);
    assert!(matches!(r, Err(AppError::Unauthorized)));
}

#[test]
fn missing_fields_get_generic_message() {
    let mut cache = CounterCache::new();
    let creds = CredentialStore::new();
    let issuer = TokenIssuer::new(TEST_SECRET.to_string());
    let req = TokenRequest { username: None, password: None, refresh_token: None };
    let r = token(&mut cache, &creds, &issuer, &req, 1000).unwrap();
    assert!(!r.success);
    assert_eq!(r.message, "Either username/password or refresh_token must be provided");
}

#[test]
fn password_flow_issues_refresh_token() {
    let mut cache = CounterCache::new();
    let creds = seeded_credentials("user-1", "password123");
    let issuer = TokenIssuer::new(TEST_SECRET.to_string());
    let now = 1_000_000;

    let r = token(&mut cache, &creds, &issuer, &password_request("user-1", "password123"), now)
        .unwrap();
    assert!(r.success);
    assert_eq!(r.message, "Refresh token issued");
    assert!(r.temporal_token.is_none());
    let refresh = r.refresh_token.expect("refresh token missing");
    let claims = issuer.verify(refresh.as_str(), now).unwrap();
    assert_eq!(claims.sub, "user-1");
    assert_eq!(claims.token_type, "refresh");
    assert_eq!(claims.exp, now + REFRESH_TOKEN_TTL_SECS);
}

#[test]
fn password_flow_rejects_unknown_and_wrong() {
    let mut cache = CounterCache::new();
    let creds = seeded_credentials("user-1", "password123");
    let issuer = TokenIssuer::new(TEST_SECRET.to_string());
    let now = 1_000_000;

    // Unknown account and wrong password read identically.
    let r1 = token(&mut cache, &creds, &issuer, &password_request("nobody", "password123"), now)
        .unwrap();
    let r2 = token(&mut cache, &creds, &issuer, &password_request("user-1", "wrong-pass"), now)
        .unwrap();
    assert!(!r1.success && !r2.success);
    assert_eq!(r1.message, "Invalid credentials");
    assert_eq!(r2.message, "Invalid credentials");
}

#[test]
fn password_flow_is_rate_limited() {
    let mut cache = CounterCache::new();
    let creds = CredentialStore::new();
    let issuer = TokenIssuer::new(TEST_SECRET.to_string());
    let now = 1_000_000;

    for _ in 0..10 {
        let r = token(&mut cache, &creds, &issuer, &password_request("hammered", "xxxxxxxx"), now);
        assert!(r.is_ok());
    }
    let r11 = token(&mut cache, &creds, &issuer, &password_request("hammered", "xxxxxxxx"), now);
    assert!(matches!(r11, Err(AppError::RateLimited)));
}
