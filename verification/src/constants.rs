use vstd::prelude::*;

verus! {

/// Minimum password length (in bytes) accepted on the authenticate path.
pub const MIN_PASSWORD_LENGTH: usize = 8;

/// Maximum length for name fields.
pub const MAX_NAME_LENGTH: usize = 64;

/// Refresh token time-to-live: 30 days in seconds.
pub const REFRESH_TOKEN_TTL_SECS: usize = 2592000;

/// Temporal token time-to-live: 1 hour in seconds.
pub const TEMPORAL_TOKEN_TTL_SECS: usize = 3600;

/// Rate limit: maximum requests per window.
pub const RATE_LIMIT_MAX_REQUESTS: u64 = 10;

/// Rate limit: window duration in seconds.
pub const RATE_LIMIT_WINDOW_SECS: usize = 60;

/// Account lockout: number of failed login attempts before lockout.
pub const LOCKOUT_THRESHOLD: u64 = 5;

/// Account lockout: duration in seconds (15 minutes).
pub const LOCKOUT_DURATION_SECS: usize = 900;

/// Required Stellar account ID length.
pub const STELLAR_ACCOUNT_ID_LENGTH: usize = 56;

/// Maximum email address length per RFC 5321.
pub const MAX_EMAIL_LENGTH: usize = 254;

} // verus!
