//! Wire-level request and response models of the bridge service.

use vstd::prelude::*;

verus! {

// ── JWT claims ─────────────────────────────────────────────────────────

/// Signed claim set of a token: subject, token type ("refresh" or
/// "temporal"), issue time and expiry time (both as Unix seconds).
#[derive(Debug)]
pub struct Claims {
    pub sub: String,
    pub token_type: String,
    pub exp: usize,
    pub iat: usize,
}

/// Mathematical image of a claim set.
pub struct ClaimsView {
    pub sub: Seq<char>,
    pub token_type: Seq<char>,
    pub exp: usize,
    pub iat: usize,
}

impl View for Claims {
    type V = ClaimsView;

    open spec fn view(&self) -> ClaimsView {
        ClaimsView {
            sub: self.sub@,
            token_type: self.token_type@,
            exp: self.exp,
            iat: self.iat,
        }
    }
}

// ── Pagination ─────────────────────────────────────────────────────────

pub struct PaginationParams {
    pub page: u64,
    pub per_page: u64,
}

pub fn default_page() -> (r: u64)
    ensures
        r == 1u64,
{
    1
}

pub fn default_per_page() -> (r: u64)
    ensures
        r == 20u64,
{
    20
}

// ── Account ────────────────────────────────────────────────────────────

pub struct CreateAccountRequest {
    pub stellar_account_id: String,
    pub payala_account_id: String,
    pub first_name: String,
    pub middle_name: Option<String>,
    pub last_name: String,
    pub nickname: Option<String>,
    pub affiliation: Option<String>,
    pub gender: Option<String>,
}

#[derive(Debug)]
pub struct CreateAccountResponse {
    pub success: bool,
    pub message: String,
}

pub struct GetAccountQuery {
    pub stellar_account_id: String,
}

#[derive(Debug)]
pub struct GetAccountResponse {
    pub payala_account_id: String,
    pub first_name: String,
    pub middle_name: Option<String>,
    pub last_name: String,
    pub nickname: Option<String>,
    pub affiliation: Option<String>,
    pub gender: Option<String>,
}

pub struct UpdateAccountRequest {
    pub stellar_account_id: Option<String>,
    pub payala_account_id: Option<String>,
    pub first_name: Option<String>,
    pub middle_name: Option<String>,
    pub last_name: Option<String>,
    pub nickname: Option<String>,
    pub affiliation: Option<String>,
    pub gender: Option<String>,
}

#[derive(Debug)]
pub struct UpdateAccountResponse {
    pub success: bool,
    pub message: String,
    pub rows_affected: u64,
}

// ── Authenticate ───────────────────────────────────────────────────────

pub struct AuthenticateRequest {
    pub account_id: String,
    pub password: String,
}

#[derive(Debug)]
pub struct AuthenticateResponse {
    pub success: bool,
    pub message: String,
    pub action: String,
}

// ── Sync ───────────────────────────────────────────────────────────────

pub struct SyncRequest {
    pub account_id: String,
}

#[derive(Debug)]
pub struct SyncResponse {
    pub success: bool,
    pub message: String,
    pub timestamp: String,
}

// ── Token ──────────────────────────────────────────────────────────────

pub struct TokenRequest {
    pub username: Option<String>,
    pub password: Option<String>,
    pub refresh_token: Option<String>,
}

#[derive(Debug)]
pub struct TokenResponse {
    pub success: bool,
    pub message: String,
    pub refresh_token: Option<String>,
    pub temporal_token: Option<String>,
}

// ── Subscribe ──────────────────────────────────────────────────────────

pub struct SubscribeRequest {
    pub network: String,
    pub listen_endpoint: Option<String>,
}

#[derive(Debug)]
pub struct SubscribeResponse {
    pub success: bool,
    pub message: String,
}

// ── Transaction ────────────────────────────────────────────────────────

pub struct CreateTransactionRequest {
    pub stellar_tx_id: Option<String>,
    pub payala_tx_id: Option<String>,
    pub stellar_hash: Option<String>,
    pub source_account: Option<String>,
    pub stellar_fee: Option<i64>,
    pub stellar_max_fee: Option<i64>,
    pub memo: Option<String>,
    pub signatures: Option<String>,
    pub preconditions: Option<String>,
    pub payala_currency: Option<String>,
    pub payala_digest: Option<String>,
}

// ── Card ───────────────────────────────────────────────────────────────

pub struct CreateCardRequest {
    pub account_id: String,
    pub card_id: String,
    pub ec_pubkey: String,
    pub rsa_pubkey: String,
}

#[derive(Debug)]
pub struct CardResponse {
    pub success: bool,
    pub message: String,
}

pub struct DeleteCardRequest {
    pub card_id: String,
}

// ── MFA ────────────────────────────────────────────────────────────────

pub struct EnrollMfaRequest {
    pub account_id: String,
    pub mfa_type: String,
    pub secret: Option<String>,
    pub phone_number: Option<String>,
}

#[derive(Debug)]
pub struct MfaResponse {
    pub success: bool,
    pub message: String,
    pub provisioning_uri: Option<String>,
}

/// One persistent MFA enrollment row, unique per (account_id, mfa_type).
#[derive(Debug)]
pub struct MfaEnrollment {
    pub account_id: String,
    pub mfa_type: String,
    pub secret: Option<String>,
    pub phone_number: Option<String>,
    pub enabled: bool,
}

pub struct MfaQuery {
    pub account_id: String,
}

pub struct VerifyMfaRequest {
    pub account_id: String,
    pub mfa_type: String,
    pub code: String,
}

// ── Notify ─────────────────────────────────────────────────────────────

pub struct CreateNotifyRequest {
    pub account_id: String,
    pub medium: String,
    pub mobile: Option<String>,
    pub wa: Option<String>,
    pub signal: Option<String>,
    pub tel: Option<String>,
    pub email: Option<String>,
    pub url: Option<String>,
    pub app: Option<String>,
}

#[derive(Debug)]
pub struct NotifyResponse {
    pub success: bool,
    pub message: String,
    pub id: Option<i32>,
}

pub struct UpdateNotifyRequest {
    pub id: i32,
    pub medium: Option<String>,
    pub mobile: Option<String>,
    pub wa: Option<String>,
    pub signal: Option<String>,
    pub tel: Option<String>,
    pub email: Option<String>,
    pub url: Option<String>,
    pub app: Option<String>,
}

// ── Version / health ───────────────────────────────────────────────────

#[derive(Debug)]
pub struct VersionResponse {
    pub name: String,
    pub version: String,
    pub build_date: String,
    pub rustc_version: String,
    pub schema_version: Option<String>,
}

#[derive(Debug)]
pub struct HealthResponse {
    pub status: String,
    pub database: String,
    pub redis: String,
}

// ── Configuration ──────────────────────────────────────────────────────

/// Process configuration. Loading it from the environment or a file is a
/// collaborator concern; this core only consumes the values.
pub struct Config {
    pub public_endpoint: String,
    pub service_address: String,
    pub log_file: String,
    pub debug_mode: bool,
    pub twilio_sid: Option<String>,
    pub twilio_token: Option<String>,
    pub twilio_number: Option<String>,
    pub ldap_url: Option<String>,
    pub ldap_bind_dn: Option<String>,
    pub ldap_bind_password: Option<String>,
    pub ldap_base_dn: Option<String>,
    pub ldap_search_filter: Option<String>,
    pub db_max_connections: u32,
    pub cors_allowed_origins: String,
    pub http_client_timeout_secs: u64,
}

} // verus!
