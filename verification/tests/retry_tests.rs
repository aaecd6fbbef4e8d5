use embed_star::error::EmbedError;
use embed_star::retry::{backoff_delay, should_retry, RetryConfig};

#[test]
fn test_retry_decision_for_transient_errors() {
    let config = RetryConfig {
        max_retries: 3,
        initial_interval_ms: 10,
        max_interval_ms: 100,
        multiplier_permille: 2000,
    };
    let transient = EmbedError::ServiceUnavailable("test error".to_string());

    // The envelope retries a transient error until the budget is spent.
    assert_eq!(should_retry(&config, &transient, 0), Some(10));
    assert_eq!(should_retry(&config, &transient, 1), Some(20));
    assert_eq!(should_retry(&config, &transient, 2), Some(40));
    assert_eq!(should_retry(&config, &transient, 3), None);
}

#[test]
fn test_retry_decision_for_non_retryable_error() {
    let config = RetryConfig::default();
    let fatal = EmbedError::Configuration("non-retryable".to_string());
    // A non-retryable error is never attempted again.
    assert_eq!(should_retry(&config, &fatal, 0), None);
}

#[test]
fn test_backoff_schedule_caps_at_ceiling() {
    let config = RetryConfig {
        max_retries: 10,
        initial_interval_ms: 100,
        max_interval_ms: 1_000,
        multiplier_permille: 2000,
    };
    assert_eq!(backoff_delay(&config, 0), 100);
    assert_eq!(backoff_delay(&config, 1), 200);
    assert_eq!(backoff_delay(&config, 2), 400);
    assert_eq!(backoff_delay(&config, 3), 800);
    // The exponential schedule saturates at the ceiling.
    assert_eq!(backoff_delay(&config, 4), 1_000);
    assert_eq!(backoff_delay(&config, 9), 1_000);
}

#[test]
fn test_default_retry_config() {
    let config = RetryConfig::default();
    assert_eq!(config.max_retries, 3);
    assert_eq!(config.initial_interval_ms, 100);
    assert_eq!(config.max_interval_ms, 10_000);
    assert_eq!(config.multiplier_permille, 2000);
}
