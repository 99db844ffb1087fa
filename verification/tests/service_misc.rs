use impala_bridge::auth::bearer_account;
use impala_bridge::constants::TEMPORAL_TOKEN_TTL_SECS;
use impala_bridge::error::AppError;
use impala_bridge::models::{default_page, default_per_page};
use impala_bridge::testnet::contract_wasm_path;
use impala_bridge::token::TokenIssuer;

#[test]
fn bearer_header_extracts_the_subject() {
    let issuer = TokenIssuer::new("secret-a".to_string());
    let now = 1_000_000;
    let token = issuer.issue("acct-42", "temporal", TEMPORAL_TOKEN_TTL_SECS, now).unwrap();
    let header = format!("Bearer {token}");
    let user = bearer_account(&header, &issuer, now).unwrap();
    assert_eq!(user.account_id, "acct-42");
}

#[test]
fn bearer_header_requires_the_prefix() {
    let issuer = TokenIssuer::new("secret-a".to_string());
    let now = 1_000_000;
    let token = issuer.issue("acct-42", "temporal", TEMPORAL_TOKEN_TTL_SECS, now).unwrap();
    assert!(bearer_account(&token, &issuer, now).is_err());
    assert!(bearer_account("Basic dXNlcjpwYXNz", &issuer, now).is_err());
}

#[test]
fn bearer_rejects_refresh_tokens_and_expired_tokens() {
    let issuer = TokenIssuer::new("secret-a".to_string());
    let now = 1_000_000;
    let refresh = issuer.issue("acct-42", "refresh", TEMPORAL_TOKEN_TTL_SECS, now).unwrap();
    let r = bearer_account(&format!("Bearer {refresh}"), &issuer, now);
    assert!(matches!(r, Err(AppError::Unauthorized)));

    let expired = issuer.issue("acct-42", "temporal", 10, now).unwrap();
    let r = bearer_account(&format!("Bearer {expired}"), &issuer, now + 11);
    assert!(matches!(r, Err(AppError::Unauthorized)));
}

#[test]
fn test_unauthorized_status() {
    assert_eq!(AppError::Unauthorized.status_code(), 401);
    assert_eq!(AppError::Unauthorized.code(), "unauthorized");
}

#[test]
fn test_bad_request_status() {
    assert_eq!(AppError::BadRequest("test".to_string()).status_code(), 400);
}

#[test]
fn test_not_found_status() {
    assert_eq!(AppError::NotFound("test".to_string()).status_code(), 404);
}

#[test]
fn test_rate_limited_status() {
    assert_eq!(AppError::RateLimited.status_code(), 429);
    assert_eq!(AppError::RateLimited.code(), "rate_limited");
}

#[test]
fn test_internal_error_status() {
    assert_eq!(AppError::InternalError("test".to_string()).status_code(), 500);
}

#[test]
fn test_forbidden_status() {
    assert_eq!(AppError::Forbidden.status_code(), 403);
}

#[test]
fn test_conflict_status() {
    assert_eq!(AppError::Conflict("test".to_string()).status_code(), 409);
}

#[test]
fn pagination_defaults() {
    assert_eq!(default_page(), 1);
    assert_eq!(default_per_page(), 20);
}

#[test]
fn wasm_path_is_joined_to_the_manifest_dir() {
    let p = contract_wasm_path("/work/testnet-tests");
    assert_eq!(
        p,
        "/work/testnet-tests/../integration-test/target/wasm32-unknown-unknown/release/soroban_impala_integration_test.wasm"
    );
}
