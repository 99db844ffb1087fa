//! The authentication state machine: rate check, lockout check, password
//! validation, credential resolution, then registration, verification or
//! rejection — with an anti-enumeration decoy hash for unknown accounts.

use vstd::prelude::*;
use vstd::string::StrSliceExecFns;
use vstd::string::StringExecFns;
use crate::cache::{
    lemma_rate_lockout_keys_distinct, lockout_key, CounterCache, CounterView,
};
use crate::constants::{
    LOCKOUT_DURATION_SECS, MIN_PASSWORD_LENGTH, RATE_LIMIT_MAX_REQUESTS, RATE_LIMIT_WINDOW_SECS,
};
use crate::credentials::{AccountDirectory, CredentialStore};
use crate::error::AppError;
use crate::hashing::{hash_password, password_matches, verify_password};
use crate::lockout;
use crate::models::{AuthenticateRequest, AuthenticateResponse, Claims};
use crate::ratelimit::{check, counters_after_allow, rate_blocked, RateDecision};
use crate::strutil::byte_len;
use crate::token::{jwt_claims_of, TokenIssuer};

verus! {

/// An authenticated caller, extracted from a valid temporal token.
pub struct AuthenticatedUser {
    pub account_id: String,
}

/// The authenticate path is over its fixed-window cap.
pub open spec fn auth_rate_blocked(c: CounterCache, account_id: Seq<char>, now: usize) -> bool {
    rate_blocked(c, "auth"@, account_id, RATE_LIMIT_MAX_REQUESTS, now)
}

/// Shape of an authenticate response.
pub open spec fn auth_resp(
    resp: AuthenticateResponse,
    success: bool,
    message: Seq<char>,
    action: Seq<char>,
) -> bool {
    resp.success == success && resp.message@ == message && resp.action@ == action
}

/// Register or authenticate an account from a presented password.
///
/// Order of decision: rate limit (fail-open), lockout (fail-open),
/// password length, account existence (with a decoy hash cycle for
/// unknown accounts), then credential resolution. A missing credential
/// registers the password; a present one is verified, clearing the
/// lockout counter on success and recording a failure otherwise.
pub fn authenticate(
    cache: &mut CounterCache,
    creds: &mut CredentialStore,
    accounts: &AccountDirectory,
    req: &AuthenticateRequest,
    now: usize,
) -> (r: Result<AuthenticateResponse, AppError>)
    requires
        old(cache).wf(),
        old(creds).wf(),
        now + LOCKOUT_DURATION_SECS <= usize::MAX,
        req.password@.len() < 0x40000000,
    ensures
        final(cache).wf(),
        final(creds).wf(),
        final(cache).is_available() == old(cache).is_available(),
        final(cache).codes() == old(cache).codes(),
        ({
            let id = req.account_id@;
            let pw = req.password@;
            if auth_rate_blocked(*old(cache), id, now) {
                &&& r matches Err(e) && e is RateLimited
                &&& final(cache).counters() == old(cache).counters()
                &&& final(creds).creds() == old(creds).creds()
            } else {
                let c1 = counters_after_allow(
                    *old(cache),
                    "auth"@,
                    id,
                    RATE_LIMIT_WINDOW_SECS,
                    now,
                );
                if lockout::locked_out(*old(cache), id, now) {
                    &&& r matches Ok(resp) && auth_resp(
                        resp,
                        false,
                        "Account temporarily locked due to too many failed attempts"@,
                        ""@,
                    )
                    &&& final(cache).counters() == c1
                    &&& final(creds).creds() == old(creds).creds()
                } else if byte_len(pw) < MIN_PASSWORD_LENGTH {
                    &&& r matches Ok(resp) && auth_resp(
                        resp,
                        false,
                        "Password must be at least 8 characters"@,
                        ""@,
                    )
                    &&& final(cache).counters() == c1
                    &&& final(creds).creds() == old(creds).creds()
                } else if !accounts.has(id) {
                    &&& r matches Ok(resp) && auth_resp(resp, false, "Invalid credentials"@, ""@)
                    &&& final(cache).counters() == c1
                    &&& final(creds).creds() == old(creds).creds()
                } else if !old(creds).creds().contains_key(id) {
                    &&& r matches Ok(resp) && auth_resp(
                        resp,
                        true,
                        "Registration successful"@,
                        "registered"@,
                    )
                    &&& final(cache).counters() == c1
                    &&& exists|h: Seq<char>|
                        #![auto]
                        password_matches(pw, h) && final(creds).creds() == old(
                            creds,
                        ).creds().insert(id, h)
                } else if password_matches(pw, old(creds).creds()[id]) {
                    &&& r matches Ok(resp) && auth_resp(
                        resp,
                        true,
                        "Authentication successful"@,
                        "authenticated"@,
                    )
                    &&& final(creds).creds() == old(creds).creds()
                    &&& final(cache).counters() == if old(cache).is_available() {
                        c1.remove(lockout_key(id))
                    } else {
                        c1
                    }
                } else {
                    &&& r matches Ok(resp) && auth_resp(resp, false, "Invalid credentials"@, ""@)
                    &&& final(creds).creds() == old(creds).creds()
                    &&& final(cache).counters() == if old(cache).is_available() {
                        c1.insert(
                            lockout_key(id),
                            CounterView {
                                count: (old(cache).counter_value(lockout_key(id), now) + 1) as u64,
                                expires_at: Some((now + LOCKOUT_DURATION_SECS) as usize),
                            },
                        )
                    } else {
                        c1
                    }
                }
            }
        }),
{
    let decision = check(
        cache,
        "auth",
        req.account_id.as_str(),
        RATE_LIMIT_MAX_REQUESTS,
        RATE_LIMIT_WINDOW_SECS,
        now,
    );
    if decision == RateDecision::Denied {
        return Err(AppError::RateLimited);
    }
    proof {
        lemma_rate_lockout_keys_distinct("auth"@, req.account_id@, req.account_id@);
        assert(cache.counter_value(lockout_key(req.account_id@), now) == old(
            cache,
        ).counter_value(lockout_key(req.account_id@), now));
    }
    if lockout::is_locked(cache, req.account_id.as_str(), now) {
        return Ok(AuthenticateResponse {
            success: false,
            message: String::from_str("Account temporarily locked due to too many failed attempts"),
            action: String::from_str(""),
        });
    }
    if req.password.as_str().len() < MIN_PASSWORD_LENGTH {
        return Ok(AuthenticateResponse {
            success: false,
            message: String::from_str("Password must be at least 8 characters"),
            action: String::from_str(""),
        });
    }
    if !accounts.contains(req.account_id.as_str()) {
        // Constant-time camouflage: run a hash-and-verify cycle so an
        // unknown account costs the same as a wrong password.
        proof {
            reveal_strlit("dummy-password-for-timing");
        }
        let dummy_hash = hash_password("dummy-password-for-timing");
        let _ = verify_password("not-the-real-password", dummy_hash.as_str());
        return Ok(AuthenticateResponse {
            success: false,
            message: String::from_str("Invalid credentials"),
            action: String::from_str(""),
        });
    }
    match creds.lookup(req.account_id.as_str()) {
        None => {
            let password_hash = hash_password(req.password.as_str());
            match creds.insert(req.account_id.as_str(), password_hash) {
                Ok(_) => Ok(AuthenticateResponse {
                    success: true,
                    message: String::from_str("Registration successful"),
                    action: String::from_str("registered"),
                }),
                Err(_) => Err(AppError::InternalError(String::from_str("Database error"))),
            }
        },
        Some(stored_hash) => {
            if verify_password(req.password.as_str(), stored_hash.as_str()) {
                lockout::clear(cache, req.account_id.as_str());
                Ok(AuthenticateResponse {
                    success: true,
                    message: String::from_str("Authentication successful"),
                    action: String::from_str("authenticated"),
                })
            } else {
                lockout::record_failure(cache, req.account_id.as_str(), now);
                Ok(AuthenticateResponse {
                    success: false,
                    message: String::from_str("Invalid credentials"),
                    action: String::from_str(""),
                })
            }
        },
    }
}

/// Law: registration stores a digest the same password verifies against.
/// After a first authenticate call registers (account_id, password) with
/// some digest h, the credential map holds h under the account, the same
/// password still matches it — so a second call takes the authenticated
/// branch — and any password that does not match h is rejected.
pub proof fn lemma_registered_credential_verifies(
    pre: Map<Seq<char>, Seq<char>>,
    post: Map<Seq<char>, Seq<char>>,
    id: Seq<char>,
    pw: Seq<char>,
    other_pw: Seq<char>,
    h: Seq<char>,
)
    requires
        !pre.contains_key(id),
        password_matches(pw, h),
        !password_matches(other_pw, h),
        post == pre.insert(id, h),
    ensures
        post.contains_key(id),
        password_matches(pw, post[id]),
        !password_matches(other_pw, post[id]),
{
}

/// Law: of two first-time registrations for the same account, only one
/// can create the credential. Once the winner's insert is in the map, the
/// register branch's guard is closed for every later call: the lookup
/// finds the row, so the caller is verified against the stored digest
/// (and the store's uniqueness constraint refuses any further insert).
pub proof fn lemma_second_registration_refused(
    pre: Map<Seq<char>, Seq<char>>,
    id: Seq<char>,
    h: Seq<char>,
)
    requires
        !pre.contains_key(id),
    ensures
        pre.insert(id, h).contains_key(id),
        pre.insert(id, h)[id] == h,
{
}

/// The header carries "Bearer " and then the token.
pub open spec fn bearer_prefix_ok(header: Seq<char>) -> bool {
    header.len() >= 7 && header.subrange(0, 7) == "Bearer "@
}

/// Extract the authenticated caller from an Authorization header: the
/// bearer token must verify under the shared secret, be unexpired, and be
/// a temporal token.
pub fn bearer_account(header: &str, issuer: &TokenIssuer, now: usize) -> (r: Result<
    AuthenticatedUser,
    AppError,
>)
    ensures
        match r {
            Ok(user) => {
                &&& bearer_prefix_ok(header@)
                &&& jwt_claims_of(header@.skip(7), issuer.secret@) matches Some(c)
                    && user.account_id@ == c.sub && c.token_type == "temporal"@ && c.exp > now
            },
            Err(e) => {
                &&& e is Unauthorized
                &&& !(bearer_prefix_ok(header@) && (jwt_claims_of(header@.skip(7), issuer.secret@)
                    matches Some(c) && c.token_type == "temporal"@ && c.exp > now))
            },
        },
{
    let len = header.unicode_len();
    if len < 7 {
        return Err(AppError::Unauthorized);
    }
    let prefix = header.substring_char(0, 7);
    if !crate::strutil::str_eq(prefix, "Bearer ") {
        return Err(AppError::Unauthorized);
    }
    let token = header.substring_char(7, len);
    proof {
        assert(token@ =~= header@.skip(7));
    }
    let claims: Claims = match issuer.verify(token, now) {
        Ok(c) => c,
        Err(_) => {
            return Err(AppError::Unauthorized);
        },
    };
    if !crate::strutil::str_eq(claims.token_type.as_str(), "temporal") {
        return Err(AppError::Unauthorized);
    }
    Ok(AuthenticatedUser { account_id: claims.sub })
}

} // verus!
