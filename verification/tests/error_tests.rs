use embed_star::error::EmbedError;

#[test]
fn test_error_retryable() {
    assert!(EmbedError::ServiceUnavailable("test".to_string()).is_retryable());
    assert!(
        (EmbedError::RateLimitExceeded { provider: "test".to_string() }).is_retryable()
    );

    assert!(!EmbedError::Configuration("test".to_string()).is_retryable());
    assert!(!(EmbedError::InvalidDimension { expected: 100, actual: 50 }).is_retryable());
}

#[test]
fn test_error_retryable_full_taxonomy() {
    assert!(EmbedError::Database("query failed".to_string()).is_retryable());
    assert!(EmbedError::Http("connection reset".to_string()).is_retryable());
    assert!(!EmbedError::EmbeddingProvider("empty result".to_string()).is_retryable());
    assert!(!EmbedError::Internal("oops".to_string()).is_retryable());
}

#[test]
fn test_error_codes() {
    assert_eq!(EmbedError::Database("x".to_string()).error_code(), "DATABASE_ERROR");
    assert_eq!(
        EmbedError::EmbeddingProvider("x".to_string()).error_code(),
        "EMBEDDING_ERROR"
    );
    assert_eq!(EmbedError::Configuration("x".to_string()).error_code(), "CONFIG_ERROR");
    assert_eq!(EmbedError::Http("x".to_string()).error_code(), "HTTP_ERROR");
    assert_eq!(
        (EmbedError::RateLimitExceeded { provider: "p".to_string() }).error_code(),
        "RATE_LIMIT"
    );
    assert_eq!(
        (EmbedError::InvalidDimension { expected: 1, actual: 2 }).error_code(),
        "INVALID_DIMENSION"
    );
    assert_eq!(
        EmbedError::ServiceUnavailable("x".to_string()).error_code(),
        "SERVICE_UNAVAILABLE"
    );
    assert_eq!(EmbedError::Internal("x".to_string()).error_code(), "INTERNAL_ERROR");
}
