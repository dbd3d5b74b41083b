//! Domain errors and model-lifecycle errors with their display messages.

use vstd::prelude::*;
use vstd::string::*;

use crate::text::{concat2, decimal, u64_to_decimal};

verus! {

/// Errors raised by the domain layer.
#[derive(Debug, Clone, PartialEq, Eq)]
pub enum DomainError {
    Validation(String),
    NotFound(String),
    Unauthorized(String),
    ExpiredKey(String),
    InvalidKey,
    Forbidden(String),
    RateLimitExceeded(String),
    ProviderUnavailable(String),
    InferenceFailed(String),
    QueueFull(String),
    Configuration(String),
    Crypto(String),
    Conflict(String),
    /// Infrastructure-originated failure; its message is shown as is.
    Internal(String),
}

impl DomainError {
    /// The error is a validation error carrying exactly `msg`.
    pub open spec fn is_validation(self, msg: Seq<char>) -> bool {
        self matches DomainError::Validation(m) && m@ == msg
    }

    /// The display message of the error.
    pub open spec fn message(&self) -> Seq<char> {
        match self {
            DomainError::Validation(s) => "validation error: "@ + s@,
            DomainError::NotFound(s) => "not found: "@ + s@,
            DomainError::Unauthorized(s) => "unauthorized: "@ + s@,
            DomainError::ExpiredKey(s) => "expired API key: "@ + s@,
            DomainError::InvalidKey => "invalid API key"@,
            DomainError::Forbidden(s) => "forbidden: "@ + s@,
            DomainError::RateLimitExceeded(s) => "rate limit exceeded: "@ + s@,
            DomainError::ProviderUnavailable(s) => "provider unavailable: "@ + s@,
            DomainError::InferenceFailed(s) => "inference failed: "@ + s@,
            DomainError::QueueFull(s) => "queue full: "@ + s@,
            DomainError::Configuration(s) => "configuration error: "@ + s@,
            DomainError::Crypto(s) => "crypto error: "@ + s@,
            DomainError::Conflict(s) => "conflict: "@ + s@,
            DomainError::Internal(s) => s@,
        }
    }

    /// Renders the display message.
    pub fn to_string(&self) -> (r: String)
        ensures
            r@ == self.message(),
    {
        match self {
            DomainError::Validation(s) => concat2("validation error: ", s.as_str()),
            DomainError::NotFound(s) => concat2("not found: ", s.as_str()),
            DomainError::Unauthorized(s) => concat2("unauthorized: ", s.as_str()),
            DomainError::ExpiredKey(s) => concat2("expired API key: ", s.as_str()),
            DomainError::InvalidKey => "invalid API key".to_owned(),
            DomainError::Forbidden(s) => concat2("forbidden: ", s.as_str()),
            DomainError::RateLimitExceeded(s) => concat2("rate limit exceeded: ", s.as_str()),
            DomainError::ProviderUnavailable(s) => concat2("provider unavailable: ", s.as_str()),
            DomainError::InferenceFailed(s) => concat2("inference failed: ", s.as_str()),
            DomainError::QueueFull(s) => concat2("queue full: ", s.as_str()),
            DomainError::Configuration(s) => concat2("configuration error: ", s.as_str()),
            DomainError::Crypto(s) => concat2("crypto error: ", s.as_str()),
            DomainError::Conflict(s) => concat2("conflict: ", s.as_str()),
            DomainError::Internal(s) => s.as_str().to_owned(),
        }
    }
}

/// Errors surfaced while loading or unloading a model on a provider.
#[derive(Debug, Clone, PartialEq, Eq)]
pub enum LifecycleError {
    /// The hard cap on load duration was exceeded.
    LoadTimeout { elapsed_ms: u64, max_ms: u64 },
    /// No progress was observed for the stall window.
    Stalled { last_progress_ms: u64 },
    /// Provider returned a non-success status or a transport error.
    ProviderError(String),
    /// The provider's circuit breaker is open.
    CircuitOpen,
    /// VRAM accounting reports that the model cannot fit.
    ResourcesExhausted { available_vram_mb: u64, required_mb: u64 },
}

impl LifecycleError {
    /// The display message of the error.
    pub open spec fn message(&self) -> Seq<char> {
        match self {
            LifecycleError::LoadTimeout { elapsed_ms, max_ms } => "model load timed out after "@
                + decimal(*elapsed_ms as nat) + "ms (max "@ + decimal(*max_ms as nat) + "ms)"@,
            LifecycleError::Stalled { last_progress_ms } => "model load stalled — no progress for "@
                + decimal(*last_progress_ms as nat) + "ms"@,
            LifecycleError::ProviderError(s) => "provider error during lifecycle: "@ + s@,
            LifecycleError::CircuitOpen => "provider circuit breaker open"@,
            LifecycleError::ResourcesExhausted { available_vram_mb, required_mb } =>
                "VRAM exhausted: available "@ + decimal(*available_vram_mb as nat) + "MB, required "@
                + decimal(*required_mb as nat) + "MB"@,
        }
    }

    /// Renders the display message.
    pub fn to_string(&self) -> (r: String)
        ensures
            r@ == self.message(),
    {
        match self {
            LifecycleError::LoadTimeout { elapsed_ms, max_ms } => {
                let mut r = "model load timed out after ".to_owned();
                r.append(u64_to_decimal(*elapsed_ms).as_str());
                r.append("ms (max ");
                r.append(u64_to_decimal(*max_ms).as_str());
                r.append("ms)");
                r
            },
            LifecycleError::Stalled { last_progress_ms } => {
                let mut r = "model load stalled — no progress for ".to_owned();
                r.append(u64_to_decimal(*last_progress_ms).as_str());
                r.append("ms");
                r
            },
            LifecycleError::ProviderError(s) => concat2("provider error during lifecycle: ", s.as_str()),
            LifecycleError::CircuitOpen => "provider circuit breaker open".to_owned(),
            LifecycleError::ResourcesExhausted { available_vram_mb, required_mb } => {
                let mut r = "VRAM exhausted: available ".to_owned();
                r.append(u64_to_decimal(*available_vram_mb).as_str());
                r.append("MB, required ");
                r.append(u64_to_decimal(*required_mb).as_str());
                r.append("MB");
                r
            },
        }
    }
}

} // verus!
