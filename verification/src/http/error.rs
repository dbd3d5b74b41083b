//! HTTP-facing error type and its mapping to status codes and bodies.

use vstd::prelude::*;
use vstd::string::*;

use crate::domain::errors::DomainError;
use crate::text::owned;

verus! {

/// Errors returned by HTTP handlers.
#[derive(Debug, Clone, PartialEq, Eq)]
pub enum AppError {
    NotFound(String),
    BadRequest(String),
    Unauthorized(String),
    Forbidden(String),
    Conflict(String),
    TooManyRequests { retry_after: u64 },
    ServiceUnavailable(String),
    UnprocessableEntity(String),
    NotImplemented(String),
    BadGateway(String),
    /// Internal failure; its detail is logged, never sent to clients.
    Internal(String),
}

/// What an error turns into on the wire: the status, the `error` message of
/// the JSON body, and the `Retry-After` value when one is sent.
#[derive(Debug, Clone, PartialEq, Eq)]
pub struct ErrorReply {
    pub status: u16,
    pub message: String,
    pub retry_after: Option<u64>,
}

impl AppError {
    /// The error is a bad-request error carrying exactly `msg`.
    pub open spec fn is_bad_request(self, msg: Seq<char>) -> bool {
        self matches AppError::BadRequest(m) && m@ == msg
    }

    /// The HTTP status code of the error.
    pub open spec fn status(&self) -> u16 {
        match self {
            AppError::NotFound(_) => 404,
            AppError::BadRequest(_) => 400,
            AppError::Unauthorized(_) => 401,
            AppError::Forbidden(_) => 403,
            AppError::Conflict(_) => 409,
            AppError::TooManyRequests { .. } => 429,
            AppError::ServiceUnavailable(_) => 503,
            AppError::UnprocessableEntity(_) => 422,
            AppError::NotImplemented(_) => 501,
            AppError::BadGateway(_) => 502,
            AppError::Internal(_) => 500,
        }
    }

    /// The client-visible message of the error.
    pub open spec fn client_message(&self) -> Seq<char> {
        match self {
            AppError::NotFound(m) => m@,
            AppError::BadRequest(m) => m@,
            AppError::Unauthorized(m) => m@,
            AppError::Forbidden(m) => m@,
            AppError::Conflict(m) => m@,
            AppError::TooManyRequests { .. } => "too many requests"@,
            AppError::ServiceUnavailable(m) => m@,
            AppError::UnprocessableEntity(m) => m@,
            AppError::NotImplemented(m) => m@,
            AppError::BadGateway(m) => m@,
            AppError::Internal(_) => "internal server error"@,
        }
    }

    /// The reply sent for this error; internal details are never exposed.
    pub fn reply(&self) -> (r: ErrorReply)
        ensures
            r.status == self.status(),
            r.message@ == self.client_message(),
            r.retry_after == (match self {
                AppError::TooManyRequests { retry_after } => Some(*retry_after),
                _ => None,
            }),
    {
        match self {
            AppError::NotFound(m) => ErrorReply { status: 404, message: owned(m.as_str()), retry_after: None },
            AppError::BadRequest(m) => ErrorReply { status: 400, message: owned(m.as_str()), retry_after: None },
            AppError::Unauthorized(m) => ErrorReply { status: 401, message: owned(m.as_str()), retry_after: None },
            AppError::Forbidden(m) => ErrorReply { status: 403, message: owned(m.as_str()), retry_after: None },
            AppError::Conflict(m) => ErrorReply { status: 409, message: owned(m.as_str()), retry_after: None },
            AppError::TooManyRequests { retry_after } => ErrorReply {
                status: 429,
                message: owned("too many requests"),
                retry_after: Some(*retry_after),
            },
            AppError::ServiceUnavailable(m) => ErrorReply { status: 503, message: owned(m.as_str()), retry_after: None },
            AppError::UnprocessableEntity(m) => ErrorReply { status: 422, message: owned(m.as_str()), retry_after: None },
            AppError::NotImplemented(m) => ErrorReply { status: 501, message: owned(m.as_str()), retry_after: None },
            AppError::BadGateway(m) => ErrorReply { status: 502, message: owned(m.as_str()), retry_after: None },
            AppError::Internal(_) => ErrorReply { status: 500, message: owned("internal server error"), retry_after: None },
        }
    }

    /// Maps a domain error to the HTTP error returned for it.
    pub fn from_domain(e: DomainError) -> (r: AppError)
        ensures
            match e {
                DomainError::Validation(m) => r == AppError::BadRequest(m),
                DomainError::NotFound(m) => r == AppError::NotFound(m),
                DomainError::Unauthorized(m) => r == AppError::Unauthorized(m),
                DomainError::ExpiredKey(m) => r == AppError::Unauthorized(m),
                DomainError::InvalidKey => r matches AppError::Unauthorized(m) && m@ == "invalid API key"@,
                DomainError::Forbidden(m) => r == AppError::Forbidden(m),
                DomainError::Conflict(m) => r == AppError::Conflict(m),
                DomainError::RateLimitExceeded(_) => r == AppError::TooManyRequests { retry_after: 60 },
                DomainError::ProviderUnavailable(m) => r == AppError::ServiceUnavailable(m),
                DomainError::InferenceFailed(m) => r == AppError::ServiceUnavailable(m),
                DomainError::QueueFull(m) => r == AppError::ServiceUnavailable(m),
                DomainError::Configuration(m) => r == AppError::Internal(m),
                DomainError::Crypto(m) => r == AppError::Internal(m),
                DomainError::Internal(m) => r == AppError::Internal(m),
            },
    {
        match e {
            DomainError::Validation(m) => AppError::BadRequest(m),
            DomainError::NotFound(m) => AppError::NotFound(m),
            DomainError::Unauthorized(m) => AppError::Unauthorized(m),
            DomainError::ExpiredKey(m) => AppError::Unauthorized(m),
            DomainError::InvalidKey => AppError::Unauthorized(owned("invalid API key")),
            DomainError::Forbidden(m) => AppError::Forbidden(m),
            DomainError::Conflict(m) => AppError::Conflict(m),
            DomainError::RateLimitExceeded(_) => AppError::TooManyRequests { retry_after: 60 },
            DomainError::ProviderUnavailable(m) => AppError::ServiceUnavailable(m),
            DomainError::InferenceFailed(m) => AppError::ServiceUnavailable(m),
            DomainError::QueueFull(m) => AppError::ServiceUnavailable(m),
            DomainError::Configuration(m) => AppError::Internal(m),
            DomainError::Crypto(m) => AppError::Internal(m),
            DomainError::Internal(m) => AppError::Internal(m),
        }
    }

    /// Error for a database failure; the cause is not exposed.
    pub fn database() -> (r: AppError)
        ensures
            r matches AppError::Internal(m) && m@ == "database error"@,
    {
        AppError::Internal(owned("database error"))
    }
}

/// An internal error never leaks its detail: whatever it carries, clients see
/// status 500 and the fixed message "internal server error".
pub proof fn lemma_internal_detail_hidden(a: AppError, b: AppError)
    requires
        a is Internal,
        b is Internal,
    ensures
        a.status() == 500,
        a.client_message() == b.client_message(),
{
}

} // verus!
