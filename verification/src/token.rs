//! Two-tier signed-token issuance: long-lived refresh tokens and
//! short-lived temporal tokens, both HMAC-signed claim sets over a shared
//! secret. Signature checking is delegated to the JWT library; expiry is
//! checked here against an explicit clock.

use vstd::prelude::*;
use vstd::string::StringExecFns;
use crate::cache::CounterCache;
use crate::constants::{
    RATE_LIMIT_MAX_REQUESTS, RATE_LIMIT_WINDOW_SECS, REFRESH_TOKEN_TTL_SECS,
    TEMPORAL_TOKEN_TTL_SECS,
};
use crate::credentials::CredentialStore;
use crate::error::AppError;
use crate::hashing::{password_matches, verify_password};
use crate::models::{Claims, ClaimsView, TokenRequest, TokenResponse};
use crate::ratelimit::{check, counters_after_allow, rate_blocked, RateDecision};
use crate::strutil::str_eq;

verus! {

/// What jsonwebtoken::decode (HS256, no time validation) yields for a
/// token string under a secret: the signed claim set, or nothing when the
/// token is malformed or its signature does not verify.
pub uninterp spec fn jwt_claims_of(token: Seq<char>, secret: Seq<char>) -> Option<ClaimsView>;

/// Relies on jsonwebtoken::encode with the default HS256 header: the
/// produced token decodes under the same secret to exactly these claims.
/// Encoding cannot fail here — the key and header are both HMAC, the
/// HS256 signing path is infallible, and a JSON object of strings and
/// numbers always serializes — so a token is always returned.
#[verifier::external_body]
fn encode_claims(claims: &Claims, secret: &str) -> (r: Option<String>)
    ensures
        r is Some,
        r matches Some(t) ==> jwt_claims_of(t@, secret@) == Some(claims@),
{
    let mut payload = serde_json::Map::new();
    payload.insert("sub".to_string(), serde_json::Value::from(claims.sub.as_str()));
    payload.insert("token_type".to_string(), serde_json::Value::from(claims.token_type.as_str()));
    payload.insert("iat".to_string(), serde_json::Value::from(claims.iat as u64));
    payload.insert("exp".to_string(), serde_json::Value::from(claims.exp as u64));
    jsonwebtoken::encode(
        &jsonwebtoken::Header::default(),
        &serde_json::Value::Object(payload),
        &jsonwebtoken::EncodingKey::from_secret(secret.as_bytes()),
    ).ok()
}

/// Relies on jsonwebtoken::decode (HS256): verifies the signature and the
/// claim shape, deterministically in the token and secret. Expiry is left
/// to the caller, which checks it against an explicit clock.
#[verifier::external_body]
fn decode_claims(token: &str, secret: &str) -> (r: Option<Claims>)
    ensures
        r matches Some(c) ==> jwt_claims_of(token@, secret@) == Some(c@),
        r is None ==> jwt_claims_of(token@, secret@) is None,
{
    let mut validation = jsonwebtoken::Validation::default();
    validation.validate_exp = false;
    validation.required_spec_claims.clear();
    let key = jsonwebtoken::DecodingKey::from_secret(secret.as_bytes());
    let data = jsonwebtoken::decode::<serde_json::Value>(token, &key, &validation).ok()?;
    let c = data.claims;
    Some(Claims {
        sub: c.get("sub")?.as_str()?.to_string(),
        token_type: c.get("token_type")?.as_str()?.to_string(),
        iat: c.get("iat")?.as_u64()? as usize,
        exp: c.get("exp")?.as_u64()? as usize,
    })
}

/// Symmetric issuer and verifier of time-bounded claims. The signing
/// secret is injected at construction.
pub struct TokenIssuer {
    pub secret: String,
}

impl TokenIssuer {
    pub fn new(secret: String) -> (r: TokenIssuer)
        ensures
            r.secret == secret,
    {
        TokenIssuer { secret }
    }

    /// Mint a signed token of the given type, valid for `ttl` seconds.
    pub fn issue(&self, sub: &str, token_type: &str, ttl: usize, now: usize) -> (r: Option<
        String,
    >)
        requires
            now + ttl <= usize::MAX,
        ensures
            r is Some,
            r matches Some(t) ==> jwt_claims_of(t@, self.secret@) == Some(
                ClaimsView {
                    sub: sub@,
                    token_type: token_type@,
                    iat: now,
                    exp: (now + ttl) as usize,
                },
            ),
    {
        let claims = Claims {
            sub: sub.to_owned(),
            token_type: token_type.to_owned(),
            iat: now,
            exp: now + ttl,
        };
        encode_claims(&claims, self.secret.as_str())
    }

    /// Decode a presented token and check its signature and expiry.
    pub fn verify(&self, token: &str, now: usize) -> (r: Result<Claims, AppError>)
        ensures
            match r {
                Ok(c) => jwt_claims_of(token@, self.secret@) == Some(c@) && c@.exp > now,
                Err(e) => e is Unauthorized && match jwt_claims_of(token@, self.secret@) {
                    None => true,
                    Some(cv) => cv.exp <= now,
                },
            },
    {
        match decode_claims(token, self.secret.as_str()) {
            None => Err(AppError::Unauthorized),
            Some(c) => {
                if c.exp > now {
                    Ok(c)
                } else {
                    Err(AppError::Unauthorized)
                }
            },
        }
    }
}

/// Law: a refresh exchange preserves the subject and mints a temporal
/// token issued at the exchange time and expiring exactly one hour later.
pub proof fn lemma_refresh_exchange_shape(presented: ClaimsView, minted: ClaimsView, now: usize)
    requires
        now + TEMPORAL_TOKEN_TTL_SECS <= usize::MAX,
        minted == (ClaimsView {
            sub: presented.sub,
            token_type: "temporal"@,
            iat: now,
            exp: (now + TEMPORAL_TOKEN_TTL_SECS) as usize,
        }),
    ensures
        minted.sub == presented.sub,
        minted.token_type == "temporal"@,
        minted.exp == minted.iat + TEMPORAL_TOKEN_TTL_SECS,
{
}

/// Issue tokens: a valid refresh token buys a temporal token; a username
/// and password buy a refresh token. The password path is rate limited
/// per username.
pub fn token(
    cache: &mut CounterCache,
    store: &CredentialStore,
    issuer: &TokenIssuer,
    req: &TokenRequest,
    now: usize,
) -> (r: Result<TokenResponse, AppError>)
    requires
        old(cache).wf(),
        store.wf(),
        now + REFRESH_TOKEN_TTL_SECS <= usize::MAX,
    ensures
        final(cache).wf(),
        final(cache).is_available() == old(cache).is_available(),
        final(cache).codes() == old(cache).codes(),
        r matches Ok(resp) ==> {
            &&& resp.success ==> ((resp.refresh_token is Some) != (resp.temporal_token is Some))
            &&& !resp.success ==> (resp.refresh_token is None && resp.temporal_token is None)
        },
        match req.refresh_token {
            Some(rt) => {
                &&& final(cache).counters() == old(cache).counters()
                &&& match jwt_claims_of(rt@, issuer.secret@) {
                    None => r matches Err(e) && e is Unauthorized,
                    Some(c) => if c.exp <= now {
                        r matches Err(e) && e is Unauthorized
                    } else if c.token_type != "refresh"@ {
                        r matches Ok(resp) && !resp.success && resp.message@
                            == "Invalid token type"@
                    } else {
                        r matches Ok(resp) && {
                            &&& resp.success
                            &&& resp.message@ == "Temporal token issued"@
                            &&& resp.refresh_token is None
                            &&& resp.temporal_token matches Some(t) && jwt_claims_of(
                                t@,
                                issuer.secret@,
                            ) == Some(
                                ClaimsView {
                                    sub: c.sub,
                                    token_type: "temporal"@,
                                    iat: now,
                                    exp: (now + TEMPORAL_TOKEN_TTL_SECS) as usize,
                                },
                            )
                        }
                    },
                }
            },
            None => {
                let uname = match req.username {
                    Some(u) => u@,
                    None => ""@,
                };
                let pw = match req.password {
                    Some(p) => p@,
                    None => ""@,
                };
                if uname.len() == 0 || pw.len() == 0 {
                    &&& final(cache).counters() == old(cache).counters()
                    &&& r matches Ok(resp) && !resp.success && resp.message@
                        == "Either username/password or refresh_token must be provided"@
                } else if rate_blocked(*old(cache), "token"@, uname, RATE_LIMIT_MAX_REQUESTS, now) {
                    &&& final(cache).counters() == old(cache).counters()
                    &&& r matches Err(e) && e is RateLimited
                } else {
                    &&& final(cache).counters() == counters_after_allow(
                        *old(cache),
                        "token"@,
                        uname,
                        RATE_LIMIT_WINDOW_SECS,
                        now,
                    )
                    &&& if !store.creds().contains_key(uname) || !password_matches(
                        pw,
                        store.creds()[uname],
                    ) {
                        r matches Ok(resp) && !resp.success && resp.message@
                            == "Invalid credentials"@
                    } else {
                        r matches Ok(resp) && {
                            &&& resp.success
                            &&& resp.message@ == "Refresh token issued"@
                            &&& resp.temporal_token is None
                            &&& resp.refresh_token matches Some(t) && jwt_claims_of(
                                t@,
                                issuer.secret@,
                            ) == Some(
                                ClaimsView {
                                    sub: uname,
                                    token_type: "refresh"@,
                                    iat: now,
                                    exp: (now + REFRESH_TOKEN_TTL_SECS) as usize,
                                },
                            )
                        }
                    }
                }
            },
        },
{
    // Flow 1: refresh token -> temporal token
    if let Some(refresh_token) = &req.refresh_token {
        let claims = match issuer.verify(refresh_token.as_str(), now) {
            Ok(c) => c,
            Err(e) => {
                return Err(e);
            },
        };
        if !str_eq(claims.token_type.as_str(), "refresh") {
            return Ok(TokenResponse {
                success: false,
                message: String::from_str("Invalid token type"),
                refresh_token: None,
                temporal_token: None,
            });
        }
        let minted = issuer.issue(claims.sub.as_str(), "temporal", TEMPORAL_TOKEN_TTL_SECS, now);
        return Ok(TokenResponse {
            success: true,
            message: String::from_str("Temporal token issued"),
            refresh_token: None,
            temporal_token: Some(minted.unwrap()),
        });
    }
    // Flow 2: username + password -> refresh token
    let username = match &req.username {
        Some(u) => u.as_str(),
        None => "",
    };
    let password = match &req.password {
        Some(p) => p.as_str(),
        None => "",
    };
    if username.is_empty() || password.is_empty() {
        return Ok(TokenResponse {
            success: false,
            message: String::from_str("Either username/password or refresh_token must be provided"),
            refresh_token: None,
            temporal_token: None,
        });
    }
    let decision = check(cache, "token", username, RATE_LIMIT_MAX_REQUESTS, RATE_LIMIT_WINDOW_SECS, now);
    if decision == RateDecision::Denied {
        return Err(AppError::RateLimited);
    }
    let stored_hash = match store.lookup(username) {
        Some(h) => h,
        None => {
            return Ok(TokenResponse {
                success: false,
                message: String::from_str("Invalid credentials"),
                refresh_token: None,
                temporal_token: None,
            });
        },
    };
    if !verify_password(password, stored_hash.as_str()) {
        return Ok(TokenResponse {
            success: false,
            message: String::from_str("Invalid credentials"),
            refresh_token: None,
            temporal_token: None,
        });
    }
    let minted = issuer.issue(username, "refresh", REFRESH_TOKEN_TTL_SECS, now);
    Ok(TokenResponse {
        success: true,
        message: String::from_str("Refresh token issued"),
        refresh_token: Some(minted.unwrap()),
        temporal_token: None,
    })
}

} // verus!
