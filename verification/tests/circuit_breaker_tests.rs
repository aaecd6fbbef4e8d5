use embed_star::circuit_breaker::{
    CircuitBreaker, CircuitBreakerConfig, CircuitBreakerManager, CircuitState,
};
use embed_star::process_batch::{decide_record_outcome, RecordOutcome};

#[test]
fn test_circuit_breaker_opens_on_threshold() {
    let config = CircuitBreakerConfig { failure_threshold: 3, ..Default::default() };
    let mut breaker = CircuitBreaker::new(config, 0);

    assert_eq!(breaker.state, CircuitState::Closed);

    // Record failures
    for _ in 0..3 {
        assert!(breaker.should_allow_request(0));
        breaker.record_failure(0);
    }

    // Circuit should now be open
    assert_eq!(breaker.state, CircuitState::Open);
    assert!(!breaker.should_allow_request(0));
}

#[test]
fn test_circuit_breaker_half_open_recovery() {
    let config = CircuitBreakerConfig {
        failure_threshold: 1,
        timeout_duration_ms: 100,
        success_threshold: 2,
        ..Default::default()
    };
    let mut breaker = CircuitBreaker::new(config, 0);

    // Open the circuit
    breaker.record_failure(0);
    assert_eq!(breaker.state, CircuitState::Open);

    // After the timeout has passed
    let now = 150;

    // Should transition to half-open
    assert!(breaker.should_allow_request(now));
    assert_eq!(breaker.state, CircuitState::HalfOpen);

    // Record successes to close the circuit
    breaker.record_success(now);
    assert_eq!(breaker.state, CircuitState::HalfOpen);

    breaker.record_success(now);
    assert_eq!(breaker.state, CircuitState::Closed);
}

#[test]
fn test_circuit_breaker_rate_threshold() {
    // With a low consecutive threshold out of reach, the failure-rate rule
    // fires once min_requests have been seen and half of them failed.
    let config = CircuitBreakerConfig {
        failure_threshold: 100,
        failure_rate_threshold_permille: 500,
        min_requests: 4,
        ..Default::default()
    };
    let mut breaker = CircuitBreaker::new(config, 0);
    breaker.record_success(0);
    breaker.record_failure(0);
    breaker.record_success(0);
    assert_eq!(breaker.state, CircuitState::Closed);
    // 2 failures out of 4 requests = 50% >= 50%
    breaker.record_failure(0);
    assert_eq!(breaker.state, CircuitState::Open);
}

#[test]
fn test_manager_tracks_services_separately() {
    let mut manager = CircuitBreakerManager::new();
    let config = CircuitBreakerConfig { failure_threshold: 1, ..Default::default() };
    manager.configure_service("flaky", config, 0);
    manager.configure_service("steady", CircuitBreakerConfig::default(), 0);

    manager.record_failure("flaky", 0);
    assert_eq!(manager.get_state("flaky"), Some(CircuitState::Open));
    assert_eq!(manager.get_state("steady"), Some(CircuitState::Closed));
    assert_eq!(manager.get_state("unknown"), None);

    assert!(!manager.should_allow_request("flaky", 10));
    assert!(manager.should_allow_request("steady", 10));

    let states = manager.get_all_states();
    assert_eq!(states.len(), 2);

    manager.reset("flaky", 20);
    assert_eq!(manager.get_state("flaky"), Some(CircuitState::Closed));

    let stats = manager.get_stats("flaky").unwrap();
    assert_eq!(stats.failed_requests, 1);
}

#[test]
fn test_circuit_opens_then_recovers_scenario() {
    // Breaker {failure_threshold=3, timeout=100ms, success_threshold=2}.
    let config = CircuitBreakerConfig {
        failure_threshold: 3,
        timeout_duration_ms: 100,
        success_threshold: 2,
        ..Default::default()
    };
    let mut breaker = CircuitBreaker::new(config, 0);
    let mut embedder_calls = 0;

    // The embedder fails three consecutive times.
    for _ in 0..3 {
        assert!(breaker.should_allow_request(0));
        embedder_calls += 1;
        breaker.record_failure(0);
    }
    assert_eq!(breaker.state, CircuitState::Open);
    assert_eq!(embedder_calls, 3);

    // The next three lifecycle attempts are refused without a call.
    for t in [10u64, 20, 30] {
        let allowed = breaker.should_allow_request(t);
        assert!(!allowed);
        let outcome = decide_record_outcome(
            "repo:r1",
            true,
            None,
            true,
            allowed,
            Err(embed_star::error::EmbedError::ServiceUnavailable("unused".to_string())),
            &None,
            0,
            0,
        );
        assert!(matches!(outcome, RecordOutcome::SkippedCircuitOpen(_)));
    }
    assert_eq!(embedder_calls, 3);

    // After 100 ms the next attempt probes, and two successes close it.
    assert!(breaker.should_allow_request(110));
    assert_eq!(breaker.state, CircuitState::HalfOpen);
    breaker.record_success(110);
    breaker.record_success(111);
    assert_eq!(breaker.state, CircuitState::Closed);
}
