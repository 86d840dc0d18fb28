//! Error taxonomy and the HTTP status each kind is surfaced as.

use vstd::prelude::*;

verus! {

/// The store could not run a query. Carries no detail on purpose: nothing of
/// the store's own error text may reach a client.
#[derive(Clone, Copy, Debug, PartialEq, Eq, Structural)]
pub struct StoreFailure;

/// What a handler may answer instead of a success.
#[derive(Clone, Copy, Debug, PartialEq, Eq, Structural)]
pub enum ApiError {
    /// Malformed or oversized input.
    Validation,
    /// The username is already registered.
    Conflict,
    /// Unknown username or wrong password at login.
    InvalidCredentials,
    /// Missing, invalid or stale token.
    Unauthorized,
    /// The resource is absent or belongs to somebody else.
    NotFound,
    /// Store failure, hashing failure or malformed internal state.
    Internal,
}

/// HTTP statuses the service answers with.
#[derive(Clone, Copy, Debug, PartialEq, Eq, Structural)]
pub enum Status {
    Success,
    NoContent,
    BadRequest,
    Unauthorized,
    NotFound,
    Conflict,
    InternalServerError,
}

impl Status {
    /// The numeric code of a status.
    pub open spec fn code_spec(self) -> u16 {
        match self {
            Status::Success => 200u16,
            Status::NoContent => 204u16,
            Status::BadRequest => 400u16,
            Status::Unauthorized => 401u16,
            Status::NotFound => 404u16,
            Status::Conflict => 409u16,
            Status::InternalServerError => 500u16,
        }
    }

    pub fn code(self) -> (c: u16)
        ensures
            c == self.code_spec(),
    {
        match self {
            Status::Success => 200u16,
            Status::NoContent => 204u16,
            Status::BadRequest => 400u16,
            Status::Unauthorized => 401u16,
            Status::NotFound => 404u16,
            Status::Conflict => 409u16,
            Status::InternalServerError => 500u16,
        }
    }
}

impl ApiError {
    /// The status an error is surfaced as. Credential mismatch is a 400,
    /// every other authentication failure a 401.
    pub open spec fn status_spec(self) -> Status {
        match self {
            ApiError::Validation => Status::BadRequest,
            ApiError::Conflict => Status::Conflict,
            ApiError::InvalidCredentials => Status::BadRequest,
            ApiError::Unauthorized => Status::Unauthorized,
            ApiError::NotFound => Status::NotFound,
            ApiError::Internal => Status::InternalServerError,
        }
    }

    pub fn status(self) -> (s: Status)
        ensures
            s == self.status_spec(),
    {
        match self {
            ApiError::Validation => Status::BadRequest,
            ApiError::Conflict => Status::Conflict,
            ApiError::InvalidCredentials => Status::BadRequest,
            ApiError::Unauthorized => Status::Unauthorized,
            ApiError::NotFound => Status::NotFound,
            ApiError::Internal => Status::InternalServerError,
        }
    }
}

} // verus!
