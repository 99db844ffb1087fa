//! Identity and session-issuance core of a bridge service: credential
//! registration and verification, fixed-window rate limiting, account
//! lockout, two-tier signed-token issuance, and TOTP/SMS multi-factor
//! enrollment and verification, over in-memory models of the keyed
//! credential store and the ephemeral counter cache.

pub mod auth;
pub mod cache;
pub mod constants;
pub mod credentials;
pub mod error;
pub mod hashing;
pub mod lockout;
pub mod mfa;
pub mod models;
pub mod ratelimit;
pub mod strutil;
pub mod testnet;
pub mod token;
pub mod totp;
pub mod validate;
