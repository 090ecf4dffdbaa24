//! Errors of the AuthZen API: a code that fixes the HTTP status, and a
//! plain-text message.

use vstd::prelude::*;

verus! {

/// The error codes of the AuthZen specification.
#[derive(Debug, Clone, Copy, PartialEq, Eq, Structural)]
pub enum AuthZenErrorCode {
    InvalidRequest,
    Unauthorized,
    Forbidden,
    InternalError,
}

/// The HTTP status of an error code.
pub open spec fn code_status(code: AuthZenErrorCode) -> u16 {
    match code {
        AuthZenErrorCode::InvalidRequest => 400,
        AuthZenErrorCode::Unauthorized => 401,
        AuthZenErrorCode::Forbidden => 403,
        AuthZenErrorCode::InternalError => 500,
    }
}

impl AuthZenErrorCode {
    /// The HTTP status that answers an error with this code.
    pub fn status_code(&self) -> (s: u16)
        ensures
            s == code_status(*self),
    {
        match self {
            AuthZenErrorCode::InvalidRequest => 400,
            AuthZenErrorCode::Unauthorized => 401,
            AuthZenErrorCode::Forbidden => 403,
            AuthZenErrorCode::InternalError => 500,
        }
    }
}

/// An error of the API, answered as its message in plain text.
#[derive(Debug, Clone)]
pub struct AuthZenError {
    pub code: AuthZenErrorCode,
    pub message: String,
}

/// The fields by which API documentation describes an AuthZen error; the
/// answers themselves carry the message as plain text.
#[derive(Debug, Clone)]
pub struct AuthZenErrorDetails {
    pub code: String,
    pub message: String,
}

/// An error of the server as a whole: a status and a detail.
#[derive(Debug, Clone)]
pub struct ApiError {
    pub status_code: u16,
    pub detail: String,
}

impl AuthZenError {
    /// An error with a code and a message.
    pub fn new(code: AuthZenErrorCode, message: String) -> (e: AuthZenError)
        ensures
            e.code == code,
            e.message == message,
    {
        AuthZenError { code, message }
    }

    /// A malformed request (400).
    pub fn invalid_request(message: String) -> (e: AuthZenError)
        ensures
            e.code == AuthZenErrorCode::InvalidRequest,
            e.message == message,
    {
        AuthZenError::new(AuthZenErrorCode::InvalidRequest, message)
    }

    /// A request without valid credentials (401).
    pub fn unauthorized(message: String) -> (e: AuthZenError)
        ensures
            e.code == AuthZenErrorCode::Unauthorized,
            e.message == message,
    {
        AuthZenError::new(AuthZenErrorCode::Unauthorized, message)
    }

    /// A request that the credentials do not permit (403).
    pub fn forbidden(message: String) -> (e: AuthZenError)
        ensures
            e.code == AuthZenErrorCode::Forbidden,
            e.message == message,
    {
        AuthZenError::new(AuthZenErrorCode::Forbidden, message)
    }

    /// A failure of the server (500).
    pub fn internal_error(message: String) -> (e: AuthZenError)
        ensures
            e.code == AuthZenErrorCode::InternalError,
            e.message == message,
    {
        AuthZenError::new(AuthZenErrorCode::InternalError, message)
    }

    /// The status and the plain-text body that answer the error.
    pub fn into_response(self) -> (r: (u16, String))
        ensures
            r.0 == code_status(self.code),
            r.1 == self.message,
    {
        let status = self.code.status_code();
        (status, self.message)
    }

    /// The AuthZen form of a server error: 401 and 403 keep their status
    /// with a fixed message, 400 keeps its detail, and every other status
    /// becomes an internal error with a generic message.
    pub fn from(err: ApiError) -> (e: AuthZenError)
        ensures
            err.status_code == 401 ==> e.code == AuthZenErrorCode::Unauthorized
                && e.message@ == "Authentication required"@,
            err.status_code == 403 ==> e.code == AuthZenErrorCode::Forbidden && e.message@
                == "Access denied"@,
            err.status_code == 400 ==> e.code == AuthZenErrorCode::InvalidRequest && e.message
                == err.detail,
            err.status_code != 401 && err.status_code != 403 && err.status_code != 400 ==> e.code
                == AuthZenErrorCode::InternalError && e.message@ == "Internal server error"@,
    {
        if err.status_code == 401 {
            AuthZenError::unauthorized("Authentication required".to_owned())
        } else if err.status_code == 403 {
            AuthZenError::forbidden("Access denied".to_owned())
        } else if err.status_code == 400 {
            AuthZenError::invalid_request(err.detail)
        } else {
            AuthZenError::internal_error("Internal server error".to_owned())
        }
    }

    /// The AuthZen form of a failure to reach the policy engine: an internal
    /// error whose message does not reveal the cause.
    pub fn from_forwarding_failure() -> (e: AuthZenError)
        ensures
            e.code == AuthZenErrorCode::InternalError,
            e.message@ == "Internal server error"@,
    {
        AuthZenError::internal_error("Internal server error".to_owned())
    }
}

} // verus!
