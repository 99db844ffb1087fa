//! RFC 6238 time-step code checking, through the TOTP library with the
//! service's fixed parameters: SHA-1, 6 digits, 30-second step, one step
//! of clock-drift tolerance, issuer "Impala".

use vstd::prelude::*;

verus! {

/// What the TOTP generator produces for a secret at a 30-second step
/// index (SHA-1, 6 digits).
pub uninterp spec fn totp_code_of(secret: Seq<u8>, step: u64) -> Seq<char>;

/// RFC 4648 base32 (no padding) encoding of a secret.
pub uninterp spec fn base32_of(secret: Seq<u8>) -> Seq<char>;

/// What RFC 4648 base32 (no padding) decoding yields, when the input is
/// well-formed.
pub uninterp spec fn base32_decode_of(encoded: Seq<char>) -> Option<Seq<u8>>;

/// Otpauth provisioning URL for a secret and account label under the
/// issuer "Impala".
pub uninterp spec fn totp_url_of(secret: Seq<u8>, account: Seq<char>) -> Seq<char>;

/// Relies on totp_rs::Secret::generate_secret: a fresh 160-bit secret
/// drawn from the system CSPRNG; only its length is fixed.
#[verifier::external_body]
pub(crate) fn generate_totp_secret() -> (r: Vec<u8>)
    ensures
        r@.len() == 20,
{
    match totp_rs::Secret::generate_secret() {
        totp_rs::Secret::Raw(bytes) => bytes,
        totp_rs::Secret::Encoded(_) => Vec::new(),
    }
}

/// Relies on totp_rs::Secret::to_encoded: RFC 4648 base32 without
/// padding, which to_bytes inverts.
#[verifier::external_body]
pub(crate) fn encode_totp_secret(secret: &Vec<u8>) -> (r: String)
    ensures
        r@ == base32_of(secret@),
        base32_decode_of(r@) == Some(secret@),
{
    match totp_rs::Secret::Raw(secret.clone()).to_encoded() {
        totp_rs::Secret::Encoded(s) => s,
        totp_rs::Secret::Raw(_) => String::new(),
    }
}

/// Relies on totp_rs::Secret::to_bytes on an encoded secret: RFC 4648
/// base32 decoding, deterministic in the input; None for malformed input.
#[verifier::external_body]
pub(crate) fn decode_totp_secret(encoded: &str) -> (r: Option<Vec<u8>>)
    ensures
        match r {
            Some(b) => base32_decode_of(encoded@) == Some(b@),
            None => base32_decode_of(encoded@) is None,
        },
{
    totp_rs::Secret::Encoded(encoded.to_string()).to_bytes().ok()
}

/// Relies on totp_rs::TOTP::new and get_url: construction fails exactly
/// for a secret under 16 bytes or an account label holding ':'; the URL
/// is a function of the secret and the label.
#[verifier::external_body]
pub(crate) fn totp_provisioning_url(secret: &Vec<u8>, account: &str) -> (r: Option<String>)
    ensures
        r is Some <==> (secret@.len() >= 16 && !account@.contains(':')),
        r matches Some(u) ==> u@ == totp_url_of(secret@, account@),
{
    let totp = totp_rs::TOTP::new(
        totp_rs::Algorithm::SHA1,
        6,
        1,
        30,
        secret.clone(),
        Some("Impala".to_string()),
        account.to_string(),
    ).ok()?;
    Some(totp.get_url())
}

/// Relies on totp_rs::TOTP::new and check (skew 1, step 30): the code is
/// accepted exactly when it equals the generated code of the current step
/// or of one step to either side. Construction fails exactly for a secret
/// under 16 bytes or an account label holding ':'. The time bounds keep
/// the library's step arithmetic from underflowing below the first step
/// and from overflowing past the last.
#[verifier::external_body]
pub(crate) fn totp_check(secret: &Vec<u8>, account: &str, code: &str, time: u64) -> (r: Option<bool>)
    requires
        30 <= time <= u64::MAX - 30,
    ensures
        r is Some <==> (secret@.len() >= 16 && !account@.contains(':')),
        r matches Some(ok) ==> ok == exists|st: u64|
            time / 30 - 1 <= st <= time / 30 + 1 && code@ == totp_code_of(secret@, st),
{
    let totp = totp_rs::TOTP::new(
        totp_rs::Algorithm::SHA1,
        6,
        1,
        30,
        secret.clone(),
        Some("Impala".to_string()),
        account.to_string(),
    ).ok()?;
    Some(totp.check(code, time))
}

} // verus!
