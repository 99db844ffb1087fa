use impala_bridge::cache::{make_sms_key, CounterCache};
use impala_bridge::mfa::{enroll_mfa, get_mfa, verify_mfa, MfaStore};
use impala_bridge::models::{EnrollMfaRequest, MfaEnrollment, MfaQuery, VerifyMfaRequest};

fn enroll_request(account_id: &str, mfa_type: &str, phone: Option<&str>) -> EnrollMfaRequest {
    EnrollMfaRequest {
        account_id: account_id.to_string(),
        mfa_type: mfa_type.to_string(),
        secret: None,
        phone_number: phone.map(|p| p.to_string()),
    }
}

fn verify_request(account_id: &str, mfa_type: &str, code: &str) -> VerifyMfaRequest {
    VerifyMfaRequest {
        account_id: account_id.to_string(),
        mfa_type: mfa_type.to_string(),
        code: code.to_string(),
    }
}

fn stored_secret(store: &MfaStore, account_id: &str) -> String {
    let rows = get_mfa(store, &MfaQuery { account_id: account_id.to_string() }).unwrap();
    rows[0].secret.clone().expect("no secret stored")
}

fn totp_generator(secret_base32: &str, account_id: &str) -> totp_rs::TOTP {
    let bytes = totp_rs::Secret::Encoded(secret_base32.to_string()).to_bytes().unwrap();
    totp_rs::TOTP::new(
        totp_rs::Algorithm::SHA1,
        6,
        1,
        30,
        bytes,
        Some("Impala".to_string()),
        account_id.to_string(),
    )
    .unwrap()
}

#[test]
fn totp_enrollment_yields_provisioning_uri() {
    let mut store = MfaStore::new();
    let r = enroll_mfa(&mut store, &enroll_request("acct-7", "totp", None)).unwrap();
    assert!(r.success);
    let uri = r.provisioning_uri.expect("no provisioning uri");
    assert!(uri.starts_with("otpauth://totp/"));
    assert!(uri.contains("acct-7"));
    assert!(uri.contains("issuer=Impala"));

    // The stored secret is valid base32 (160-bit secret) and appears in
    // the URI.
    let secret = stored_secret(&store, "acct-7");
    assert!(uri.contains(&secret));
    let bytes = totp_rs::Secret::Encoded(secret.clone()).to_bytes().unwrap();
    assert_eq!(bytes.len(), 20);
}

#[test]
fn totp_current_step_code_verifies_and_distant_code_fails() {
    let mut store = MfaStore::new();
    let mut cache = CounterCache::new();
    enroll_mfa(&mut store, &enroll_request("acct-8", "totp", None)).unwrap();
    let secret = stored_secret(&store, "acct-8");
    let totp = totp_generator(&secret, "acct-8");

    let now: usize = 1_000_000;
    let current = totp.generate(now as u64);
    let r = verify_mfa(&store, &mut cache, &verify_request("acct-8", "totp", &current), now)
        .unwrap();
    assert!(r.success);
    assert_eq!(r.message, "MFA verification successful");

    // A code from two steps away is outside the one-step drift tolerance.
    let far = totp.generate((now + 60) as u64);
    let r = verify_mfa(&store, &mut cache, &verify_request("acct-8", "totp", &far), now).unwrap();
    assert!(!r.success);
    assert_eq!(r.message, "Invalid verification code");
}

#[test]
fn totp_adjacent_step_code_verifies() {
    let mut store = MfaStore::new();
    let mut cache = CounterCache::new();
    enroll_mfa(&mut store, &enroll_request("acct-9", "totp", None)).unwrap();
    let secret = stored_secret(&store, "acct-9");
    let totp = totp_generator(&secret, "acct-9");

    let now: usize = 1_000_000;
    let previous_step = totp.generate((now - 30) as u64);
    let r = verify_mfa(&store, &mut cache, &verify_request("acct-9", "totp", &previous_step), now)
        .unwrap();
    assert!(r.success);
}

#[test]
fn reenrollment_replaces_the_secret() {
    let mut store = MfaStore::new();
    enroll_mfa(&mut store, &enroll_request("acct-10", "totp", None)).unwrap();
    let first = stored_secret(&store, "acct-10");
    enroll_mfa(&mut store, &enroll_request("acct-10", "totp", None)).unwrap();
    let second = stored_secret(&store, "acct-10");
    assert_ne!(first, second);
    let rows = get_mfa(&store, &MfaQuery { account_id: "acct-10".to_string() }).unwrap();
    assert_eq!(rows.len(), 1);
    assert!(rows[0].enabled);
}

#[test]
fn sms_code_is_single_use() {
    let mut store = MfaStore::new();
    let mut cache = CounterCache::new();
    let now: usize = 1_000_000;
    let r = enroll_mfa(&mut store, &enroll_request("acct-11", "sms", Some("+14155551234"))).unwrap();
    assert!(r.success);
    assert!(r.provisioning_uri.is_none());

    // A never-issued code fails.
    let r = verify_mfa(&store, &mut cache, &verify_request("acct-11", "sms", "000111"), now)
        .unwrap();
    assert!(!r.success);
    assert_eq!(r.message, "Invalid verification code");

    // The delivery collaborator stores a challenge; it verifies once.
    let key = make_sms_key("acct-11", "sms");
    cache.set_code(key.as_str(), "424242".to_string(), 300, now);
    let r = verify_mfa(&store, &mut cache, &verify_request("acct-11", "sms", "424242"), now)
        .unwrap();
    assert!(r.success);

    // The second use of the same code finds no challenge.
    let r = verify_mfa(&store, &mut cache, &verify_request("acct-11", "sms", "424242"), now)
        .unwrap();
    assert!(!r.success);
    assert_eq!(r.message, "Invalid verification code");
}

#[test]
fn sms_challenge_expires() {
    let mut store = MfaStore::new();
    let mut cache = CounterCache::new();
    let now: usize = 1_000_000;
    enroll_mfa(&mut store, &enroll_request("acct-12", "sms", Some("+14155551234"))).unwrap();
    let key = make_sms_key("acct-12", "sms");
    cache.set_code(key.as_str(), "424242".to_string(), 300, now);
    let r = verify_mfa(&store, &mut cache, &verify_request("acct-12", "sms", "424242"), now + 301)
        .unwrap();
    assert!(!r.success);
}

#[test]
fn enrollment_validation_messages() {
    let mut store = MfaStore::new();
    let r = enroll_mfa(&mut store, &enroll_request("acct", "carrier-pigeon", None)).unwrap();
    assert!(!r.success);
    assert_eq!(r.message, "mfa_type must be 'totp' or 'sms'");

    let r = enroll_mfa(&mut store, &enroll_request("acct", "sms", None)).unwrap();
    assert!(!r.success);
    assert_eq!(r.message, "phone_number is required for SMS enrollment");
}

#[test]
fn verify_without_enrollment_fails() {
    let store = MfaStore::new();
    let mut cache = CounterCache::new();
    let r = verify_mfa(&store, &mut cache, &verify_request("acct", "totp", "123456"), 1_000_000)
        .unwrap();
    assert!(!r.success);
    assert_eq!(r.message, "MFA not enrolled for this account/type");
}

#[test]
fn disabled_enrollment_rejects_verification() {
    let mut store = MfaStore::new();
    let mut cache = CounterCache::new();
    store.upsert(MfaEnrollment {
        account_id: "acct".to_string(),
        mfa_type: "sms".to_string(),
        secret: None,
        phone_number: Some("+14155551234".to_string()),
        enabled: false,
    });
    let r = verify_mfa(&store, &mut cache, &verify_request("acct", "sms", "123456"), 1_000_000)
        .unwrap();
    assert!(!r.success);
    assert_eq!(r.message, "MFA is disabled for this enrollment");
}

#[test]
fn empty_code_rejected() {
    let mut store = MfaStore::new();
    let mut cache = CounterCache::new();
    enroll_mfa(&mut store, &enroll_request("acct", "sms", Some("+14155551234"))).unwrap();
    let r = verify_mfa(&store, &mut cache, &verify_request("acct", "sms", ""), 1_000_000).unwrap();
    assert!(!r.success);
    assert_eq!(r.message, "Code must not be empty");
}

#[test]
fn sms_verification_needs_the_cache_backend() {
    let mut store = MfaStore::new();
    let mut cache = CounterCache::new();
    enroll_mfa(&mut store, &enroll_request("acct", "sms", Some("+14155551234"))).unwrap();
    cache.set_available(false);
    let r = verify_mfa(&store, &mut cache, &verify_request("acct", "sms", "123456"), 1_000_000);
    assert!(r.is_err());
}

#[test]
fn listing_returns_all_enrollments_for_the_account() {
    let mut store = MfaStore::new();
    enroll_mfa(&mut store, &enroll_request("acct-a", "totp", None)).unwrap();
    enroll_mfa(&mut store, &enroll_request("acct-a", "sms", Some("+14155551234"))).unwrap();
    enroll_mfa(&mut store, &enroll_request("acct-b", "totp", None)).unwrap();
    let rows = get_mfa(&store, &MfaQuery { account_id: "acct-a".to_string() }).unwrap();
    assert_eq!(rows.len(), 2);
    assert_eq!(rows[0].mfa_type, "totp");
    assert_eq!(rows[1].mfa_type, "sms");
    assert_eq!(rows[1].phone_number.as_deref(), Some("+14155551234"));
}
