//! One-way password hashing with constant-time verification.
//!
//! The digest is self-describing: it embeds the algorithm parameters and a
//! per-call random salt, so hashing the same password twice yields
//! different digests. Verification is a deterministic function of the
//! password and the digest alone, which `password_matches` names.

use vstd::prelude::*;

verus! {

/// What password_auth::verify_password returns for a password and a PHC
/// digest: true exactly when the digest parses and the password matches.
pub uninterp spec fn password_matches(password: Seq<char>, digest: Seq<char>) -> bool;

/// Relies on password_auth::generate_hash: the fresh digest (whatever salt
/// was drawn) verifies against the password it was made from. The length
/// bound keeps the password under the hash algorithm's input limit.
#[verifier::external_body]
pub(crate) fn hash_password(password: &str) -> (r: String)
    requires
        password@.len() < 0x40000000,
    ensures
        password_matches(password@, r@),
{
    password_auth::generate_hash(password)
}

/// Relies on password_auth::verify_password: deterministic in the password
/// and digest; false (never a panic) for malformed digests or mismatches.
#[verifier::external_body]
pub(crate) fn verify_password(password: &str, digest: &str) -> (r: bool)
    ensures
        r == password_matches(password@, digest@),
{
    password_auth::verify_password(password, digest).is_ok()
}

} // verus!
