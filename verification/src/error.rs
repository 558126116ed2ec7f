use vstd::prelude::*;

verus! {

/// The error type of the `anyhow` crate, carried by internal failures.
#[verifier::external_type_specification]
#[verifier::external_body]
pub struct ExAnyhowError(anyhow::Error);

/// Errors of the gateway's request handling; each maps to one HTTP status.
#[derive(Debug)]
pub enum AppError {
    Unauthorized(String),
    Unavailable(String),
    Upstream(String),
    BadRequest(String),
    Internal(anyhow::Error),
}

pub type AppResult<T> = Result<T, AppError>;

} // verus!
