//! Error taxonomy of the service.
//!
//! Validation and business-rule failures are recovered locally and returned
//! as `success = false` responses; only these variants surface as errors.

use vstd::prelude::*;
use vstd::string::StringExecFns;

verus! {

#[derive(Debug)]
pub enum AppError {
    Unauthorized,
    BadRequest(String),
    NotFound(String),
    RateLimited,
    InternalError(String),
    Forbidden,
    Conflict(String),
}

impl AppError {
    /// HTTP status code that a transport layer reports for this error.
    pub fn status_code(&self) -> (r: u16)
        ensures
            r == match *self {
                AppError::Unauthorized => 401u16,
                AppError::BadRequest(_) => 400u16,
                AppError::NotFound(_) => 404u16,
                AppError::RateLimited => 429u16,
                AppError::InternalError(_) => 500u16,
                AppError::Forbidden => 403u16,
                AppError::Conflict(_) => 409u16,
            },
    {
        match self {
            AppError::Unauthorized => 401,
            AppError::BadRequest(_) => 400,
            AppError::NotFound(_) => 404,
            AppError::RateLimited => 429,
            AppError::InternalError(_) => 500,
            AppError::Forbidden => 403,
            AppError::Conflict(_) => 409,
        }
    }

    /// Machine-readable error code, as the transport layer serialises it.
    pub fn code(&self) -> (r: &'static str)
        ensures
            r@ == match *self {
                AppError::Unauthorized => "unauthorized"@,
                AppError::BadRequest(_) => "bad_request"@,
                AppError::NotFound(_) => "not_found"@,
                AppError::RateLimited => "rate_limited"@,
                AppError::InternalError(_) => "internal_error"@,
                AppError::Forbidden => "forbidden"@,
                AppError::Conflict(_) => "conflict"@,
            },
    {
        match self {
            AppError::Unauthorized => "unauthorized",
            AppError::BadRequest(_) => "bad_request",
            AppError::NotFound(_) => "not_found",
            AppError::RateLimited => "rate_limited",
            AppError::InternalError(_) => "internal_error",
            AppError::Forbidden => "forbidden",
            AppError::Conflict(_) => "conflict",
        }
    }

    /// Human-readable message of the error body, as the transport layer
    /// serialises it: the carried text where the variant holds one, a
    /// fixed phrase otherwise.
    pub fn message(&self) -> (r: String)
        ensures
            r@ == match *self {
                AppError::Unauthorized => "Authentication required"@,
                AppError::BadRequest(m) => m@,
                AppError::NotFound(m) => m@,
                AppError::RateLimited => "Too many requests, please try again later"@,
                AppError::InternalError(m) => m@,
                AppError::Forbidden => "Access denied"@,
                AppError::Conflict(m) => m@,
            },
    {
        match self {
            AppError::Unauthorized => String::from_str("Authentication required"),
            AppError::BadRequest(m) => m.clone(),
            AppError::NotFound(m) => m.clone(),
            AppError::RateLimited => String::from_str("Too many requests, please try again later"),
            AppError::InternalError(m) => m.clone(),
            AppError::Forbidden => String::from_str("Access denied"),
            AppError::Conflict(m) => m.clone(),
        }
    }
}

} // verus!
