use impala_bridge::validate::{
    ldap_escape, validate_callback_url, validate_email, validate_phone_number,
    validate_stellar_account_id,
};

// ── Stellar account ID ─────────────────────────────────────────────────

#[test]
fn test_valid_stellar_id() {
    let id = "GABC2345678901234567890123456789012345678901234567890123";
    assert!(validate_stellar_account_id(id).is_ok());
}

#[test]
fn test_stellar_id_wrong_prefix() {
    let id = "SABC2345678901234567890123456789012345678901234567890123";
    assert!(validate_stellar_account_id(id).is_err());
}

#[test]
fn test_stellar_id_too_short() {
    assert!(validate_stellar_account_id("GABC").is_err());
}

#[test]
fn test_stellar_id_non_alphanumeric() {
    let id = "GABC234567890123456789012345678901234567890123456789012!";
    assert!(validate_stellar_account_id(id).is_err());
}

// ── Email ──────────────────────────────────────────────────────────────

#[test]
fn test_valid_email() {
    assert!(validate_email("user@example.com").is_ok());
}

#[test]
fn test_email_no_at() {
    assert!(validate_email("userexample.com").is_err());
}

#[test]
fn test_email_no_domain_dot() {
    assert!(validate_email("user@example").is_err());
}

#[test]
fn test_email_empty_local() {
    assert!(validate_email("@example.com").is_err());
}

#[test]
fn test_email_too_long() {
    let long_email = format!("{}@example.com", "a".repeat(250));
    assert!(validate_email(&long_email).is_err());
}

// ── Phone number ───────────────────────────────────────────────────────

#[test]
fn test_valid_phone() {
    assert!(validate_phone_number("+14155551234").is_ok());
}

#[test]
fn test_phone_no_plus() {
    assert!(validate_phone_number("14155551234").is_err());
}

#[test]
fn test_phone_too_short() {
    assert!(validate_phone_number("+12345").is_err());
}

#[test]
fn test_phone_non_digit() {
    assert!(validate_phone_number("+1415555abc4").is_err());
}

// ── Callback URL ───────────────────────────────────────────────────────

#[test]
fn test_valid_callback_url() {
    assert!(validate_callback_url("https://example.com/webhook").is_ok());
}

#[test]
fn test_callback_localhost() {
    assert!(validate_callback_url("http://localhost/callback").is_err());
}

#[test]
fn test_callback_loopback() {
    assert!(validate_callback_url("http://127.0.0.1/callback").is_err());
}

#[test]
fn test_callback_private_10() {
    assert!(validate_callback_url("http://10.0.0.1/callback").is_err());
}

#[test]
fn test_callback_private_172() {
    assert!(validate_callback_url("http://172.16.0.1/callback").is_err());
}

#[test]
fn test_callback_private_192() {
    assert!(validate_callback_url("http://192.168.1.1/callback").is_err());
}

#[test]
fn test_callback_link_local() {
    assert!(validate_callback_url("http://169.254.169.254/latest/meta-data").is_err());
}

#[test]
fn test_callback_metadata() {
    assert!(validate_callback_url("http://169.254.169.254/").is_err());
}

#[test]
fn test_callback_ftp_scheme() {
    assert!(validate_callback_url("ftp://example.com/file").is_err());
}

#[test]
fn callback_metadata_domain_rejected() {
    assert!(validate_callback_url("http://metadata.google.internal/computeMetadata").is_err());
}

#[test]
fn callback_public_ip_accepted() {
    assert!(validate_callback_url("https://8.8.8.8/hook").is_ok());
    assert!(validate_callback_url("http://172.15.0.1/hook").is_ok());
    assert!(validate_callback_url("http://172.32.0.1/hook").is_ok());
}

// ── LDAP escape ────────────────────────────────────────────────────────

#[test]
fn test_ldap_escape_clean() {
    assert_eq!(ldap_escape("hello"), "hello");
}

#[test]
fn test_ldap_escape_special_chars() {
    assert_eq!(ldap_escape("user*(admin)"), "user\\2a\\28admin\\29");
}

#[test]
fn test_ldap_escape_backslash() {
    assert_eq!(ldap_escape("a\\b"), "a\\5cb");
}

#[test]
fn test_ldap_escape_null() {
    assert_eq!(ldap_escape("a\0b"), "a\\00b");
}
