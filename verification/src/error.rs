//! Error taxonomy of the pipeline, and the retryability rule that the retry
//! envelope consults before re-attempting an operation.

use vstd::prelude::*;

verus! {

/// The precise reason an embedding vector was rejected by the validator.
#[derive(Clone, Copy, Debug, PartialEq, Eq, Structural)]
pub enum ValidationFailure {
    /// The vector has no elements at all.
    Empty,
    /// The vector is shorter than the configured minimum dimension.
    BelowMinDimension { len: usize, min: usize },
    /// The vector is longer than the configured maximum dimension.
    AboveMaxDimension { len: usize, max: usize },
    /// The vector's length differs from the exact dimension the validator
    /// expects.
    WrongDimension { expected: usize, actual: usize },
    /// The element at `index` is NaN or infinite (first offending index).
    NotFinite { index: usize },
    /// Too many elements are exactly zero.
    ZeroRatioExceeded { zero_count: usize, len: usize },
    /// The L2 magnitude is below the configured minimum.
    MagnitudeTooLow { magnitude_micros: u64, min_micros: u64 },
    /// The L2 magnitude is above the configured maximum.
    MagnitudeTooHigh { magnitude_micros: u64, max_micros: u64 },
    /// The variance of the elements is so low the vector is nearly constant.
    LowVariance,
}

/// Tagged error of the pipeline. Database, transport and provider failures
/// carry a human-readable description; shape failures carry the numbers that
/// made them fail.
#[derive(Clone, Debug)]
pub enum EmbedError {
    /// Query, transport or decode failure on the record store.
    Database(String),
    /// Non-2xx or empty result from an embedding provider.
    EmbeddingProvider(String),
    /// Missing credentials or out-of-range settings; aborts startup.
    Configuration(String),
    /// HTTP failure on the way to a provider.
    Http(String),
    /// The non-blocking rate-limit check found no token available.
    RateLimitExceeded { provider: String },
    /// The vector's length does not match the dimension the validator expects.
    InvalidDimension { expected: usize, actual: usize },
    /// The circuit breaker is open for the service.
    ServiceUnavailable(String),
    /// The validator rejected the vector for the given reason.
    Validation { context: String, reason: ValidationFailure },
    /// Failure that fits no other tag.
    Internal(String),
}

impl EmbedError {
    /// Whether the retry envelope may re-attempt an operation that failed
    /// with this error.
    pub open spec fn spec_is_retryable(&self) -> bool {
        match self {
            EmbedError::Database(_) => true,
            EmbedError::Http(_) => true,
            EmbedError::RateLimitExceeded { .. } => true,
            EmbedError::ServiceUnavailable(_) => true,
            _ => false,
        }
    }

    pub fn is_retryable(&self) -> (r: bool)
        ensures
            r == self.spec_is_retryable(),
    {
        match self {
            EmbedError::Database(_) => true,
            EmbedError::Http(_) => true,
            EmbedError::RateLimitExceeded { .. } => true,
            EmbedError::ServiceUnavailable(_) => true,
            _ => false,
        }
    }

    /// The short code under which this error is counted in metrics.
    pub open spec fn spec_error_code(&self) -> Seq<char> {
        match self {
            EmbedError::Database(_) => "DATABASE_ERROR"@,
            EmbedError::EmbeddingProvider(_) => "EMBEDDING_ERROR"@,
            EmbedError::Configuration(_) => "CONFIG_ERROR"@,
            EmbedError::Http(_) => "HTTP_ERROR"@,
            EmbedError::RateLimitExceeded { .. } => "RATE_LIMIT"@,
            EmbedError::InvalidDimension { .. } => "INVALID_DIMENSION"@,
            EmbedError::ServiceUnavailable(_) => "SERVICE_UNAVAILABLE"@,
            EmbedError::Validation { .. } => "VALIDATION_ERROR"@,
            EmbedError::Internal(_) => "INTERNAL_ERROR"@,
        }
    }

    pub fn error_code(&self) -> (r: &'static str)
        ensures
            r@ == self.spec_error_code(),
    {
        match self {
            EmbedError::Database(_) => "DATABASE_ERROR",
            EmbedError::EmbeddingProvider(_) => "EMBEDDING_ERROR",
            EmbedError::Configuration(_) => "CONFIG_ERROR",
            EmbedError::Http(_) => "HTTP_ERROR",
            EmbedError::RateLimitExceeded { .. } => "RATE_LIMIT",
            EmbedError::InvalidDimension { .. } => "INVALID_DIMENSION",
            EmbedError::ServiceUnavailable(_) => "SERVICE_UNAVAILABLE",
            EmbedError::Validation { .. } => "VALIDATION_ERROR",
            EmbedError::Internal(_) => "INTERNAL_ERROR",
        }
    }
}

} // verus!
