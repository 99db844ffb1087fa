use impala_bridge::auth::authenticate;
use impala_bridge::cache::CounterCache;
use impala_bridge::credentials::{AccountDirectory, CredentialStore};
use impala_bridge::error::AppError;
use impala_bridge::models::AuthenticateRequest;

fn request(account_id: &str, password: &str) -> AuthenticateRequest {
    AuthenticateRequest { account_id: account_id.to_string(), password: password.to_string() }
}

#[test]
fn first_call_registers_then_authenticates() {
    let mut cache = CounterCache::new();
    let mut creds = CredentialStore::new();
    let mut accounts = AccountDirectory::new();
    accounts.add("acct-1".to_string());
    let now = 1_000_000;

    let r1 = authenticate(&mut cache, &mut creds, &accounts, &request("acct-1", "password123"), now)
        .unwrap();
    assert!(r1.success);
    assert_eq!(r1.action, "registered");
    assert_eq!(r1.message, "Registration successful");

    let r2 = authenticate(&mut cache, &mut creds, &accounts, &request("acct-1", "password123"), now)
        .unwrap();
    assert!(r2.success);
    assert_eq!(r2.action, "authenticated");

    let r3 = authenticate(&mut cache, &mut creds, &accounts, &request("acct-1", "different-pass"), now)
        .unwrap();
    assert!(!r3.success);
    assert_eq!(r3.action, "");
    assert_eq!(r3.message, "Invalid credentials");
}

#[test]
fn short_password_rejected() {
    let mut cache = CounterCache::new();
    let mut creds = CredentialStore::new();
    let mut accounts = AccountDirectory::new();
    accounts.add("acct-1".to_string());

    let r = authenticate(&mut cache, &mut creds, &accounts, &request("acct-1", "short"), 1000)
        .unwrap();
    assert!(!r.success);
    assert_eq!(r.message, "Password must be at least 8 characters");
}

#[test]
fn unknown_account_gets_generic_rejection() {
    let mut cache = CounterCache::new();
    let mut creds = CredentialStore::new();
    let accounts = AccountDirectory::new();

    let r = authenticate(&mut cache, &mut creds, &accounts, &request("ghost", "password123"), 1000)
        .unwrap();
    assert!(!r.success);
    assert_eq!(r.message, "Invalid credentials");
    assert_eq!(r.action, "");
}

#[test]
fn five_failures_lock_the_account() {
    let mut cache = CounterCache::new();
    let mut creds = CredentialStore::new();
    let mut accounts = AccountDirectory::new();
    accounts.add("acct-2".to_string());
    let now = 1_000_000;

    let r = authenticate(&mut cache, &mut creds, &accounts, &request("acct-2", "password123"), now)
        .unwrap();
    assert_eq!(r.action, "registered");

    for _ in 0..5 {
        let r = authenticate(
            &mut cache,
            &mut creds,
            &accounts,
            &request("acct-2", "wrong-password"),
            now,
        )
        .unwrap();
        assert!(!r.success);
        assert_eq!(r.message, "Invalid credentials");
    }

    // Sixth call, even with the correct password, answers with the
    // lockout message.
    let r6 = authenticate(&mut cache, &mut creds, &accounts, &request("acct-2", "password123"), now)
        .unwrap();
    assert!(!r6.success);
    assert_eq!(r6.message, "Account temporarily locked due to too many failed attempts");

    // After the cooldown has passed the account opens up again.
    let later = now + 901;
    let r7 = authenticate(
        &mut cache,
        &mut creds,
        &accounts,
        &request("acct-2", "password123"),
        later,
    )
    .unwrap();
    assert!(r7.success);
    assert_eq!(r7.action, "authenticated");
}

#[test]
fn eleventh_call_in_window_is_rate_limited() {
    let mut cache = CounterCache::new();
    let mut creds = CredentialStore::new();
    let accounts = AccountDirectory::new();
    let now = 1_000_000;

    for _ in 0..10 {
        let r = authenticate(&mut cache, &mut creds, &accounts, &request("busy", "password123"), now);
        assert!(r.is_ok());
    }
    let r11 = authenticate(&mut cache, &mut creds, &accounts, &request("busy", "password123"), now);
    assert!(matches!(r11, Err(AppError::RateLimited)));

    // Once the window has expired the path opens again.
    let r12 = authenticate(
        &mut cache,
        &mut creds,
        &accounts,
        &request("busy", "password123"),
        now + 61,
    );
    assert!(r12.is_ok());
}

#[test]
fn cache_outage_fails_open() {
    let mut cache = CounterCache::new();
    let mut creds = CredentialStore::new();
    let mut accounts = AccountDirectory::new();
    accounts.add("acct-3".to_string());
    let now = 1_000_000;

    let r = authenticate(&mut cache, &mut creds, &accounts, &request("acct-3", "password123"), now)
        .unwrap();
    assert_eq!(r.action, "registered");

    // With the cache backend down, rate limiting and lockout are skipped
    // and the primary credential path still succeeds.
    cache.set_available(false);
    let r = authenticate(&mut cache, &mut creds, &accounts, &request("acct-3", "password123"), now)
        .unwrap();
    assert!(r.success);
    assert_eq!(r.action, "authenticated");
}

#[test]
fn repeated_first_time_registration_is_benign() {
    // Sequential rendering of two first-time calls for the same account:
    // exactly one registers, the other authenticates against the stored
    // credential; no duplicate row and no crash.
    let mut cache = CounterCache::new();
    let mut creds = CredentialStore::new();
    let mut accounts = AccountDirectory::new();
    accounts.add("acct-4".to_string());
    let now = 1_000_000;

    let r1 = authenticate(&mut cache, &mut creds, &accounts, &request("acct-4", "password123"), now)
        .unwrap();
    let r2 = authenticate(&mut cache, &mut creds, &accounts, &request("acct-4", "password123"), now)
        .unwrap();
    assert_eq!(r1.action, "registered");
    assert_eq!(r2.action, "authenticated");
    assert!(creds.lookup("acct-4").is_some());
}
