use embed_star::config::Config;
use embed_star::embedder::{provider_response_outcome, EmbedStep, Embedder, Provider};
use embed_star::error::EmbedError;
use embed_star::metrics::Metrics;

fn test_config() -> Config {
    Config {
        db_url: "ws://localhost:8000".to_string(),
        db_user: "root".to_string(),
        db_pass: "root".to_string(),
        db_namespace: "test".to_string(),
        db_database: "test".to_string(),
        embedding_provider: "ollama".to_string(),
        ollama_url: "http://localhost:11434".to_string(),
        openai_api_key: None,
        together_api_key: None,
        embedding_model: "test-model".to_string(),
        batch_size: 10,
        batch_delay_ms: 100,
        pool_size: 10,
        retry_attempts: 3,
        retry_delay_ms: 1000,
        monitoring_port: None,
        parallel_workers: 1,
        token_limit: 100,
        pool_max_size: 10,
        pool_timeout_secs: 30,
        pool_wait_timeout_secs: 10,
        pool_create_timeout_secs: 30,
        pool_recycle_timeout_secs: 30,
    }
}

fn bits(values: &[f32]) -> Vec<u32> {
    values.iter().map(|v| v.to_bits()).collect()
}

#[test]
fn test_text_truncation() {
    // token_limit is 100 in the test configuration.
    let embedder = Embedder::new(&test_config()).unwrap();

    // Test short text (should not be truncated)
    let short_text = "This is a short text";
    let result = embedder.truncate_text(short_text);
    assert_eq!(result, short_text);

    // Test long text (should be truncated)
    let long_text = "a".repeat(200);
    let result = embedder.truncate_text(&long_text);
    assert_eq!(result.len(), 100); // 97 chars + "..."
    assert!(result.ends_with("..."));
    assert_eq!(&result[..97], &long_text[..97]);

    // Test exact limit
    let exact_text = "b".repeat(100);
    let result = embedder.truncate_text(&exact_text);
    assert_eq!(result, exact_text);
}

#[test]
fn test_provider_selection() {
    let mut config = test_config();
    let embedder = Embedder::new(&config).unwrap();
    assert!(matches!(embedder.provider, Provider::Ollama(_)));
    assert_eq!(embedder.model_name(), "test-model");
    assert!(embedder.validator.is_none());

    config.embedding_provider = "openai".to_string();
    match Embedder::new(&config) {
        Err(EmbedError::Configuration(_)) => {}
        _ => panic!("a missing OpenAI key should be a configuration error"),
    }
    config.openai_api_key = Some("sk-test".to_string());
    assert!(matches!(Embedder::new(&config).unwrap().provider, Provider::OpenAI(_)));

    config.embedding_provider = "togetherai".to_string();
    assert!(Embedder::new(&config).is_err());
    config.together_api_key = Some("tk-test".to_string());
    assert!(matches!(Embedder::new(&config).unwrap().provider, Provider::Together(_)));

    config.embedding_provider = "mystery".to_string();
    assert!(Embedder::new(&config).is_err());
}

#[test]
fn test_validator_selected_by_model() {
    let mut config = test_config();
    config.embedding_provider = "together".to_string();
    config.together_api_key = Some("tk".to_string());
    config.embedding_model = "intfloat/multilingual-e5-large-instruct".to_string();
    let embedder = Embedder::new(&config).unwrap();
    let validator = embedder.validator.expect("validator installed for the e5 model");
    assert_eq!(validator.config.expected_dimension, Some(1024));
    assert_eq!(validator.config.min_magnitude_micros, 500_000);
    assert_eq!(validator.config.max_magnitude_micros, 2_000_000);
}

#[test]
fn test_provider_response_outcome() {
    let ok = provider_response_outcome(200, Some(bits(&[0.1, 0.2])));
    assert_eq!(ok.unwrap(), bits(&[0.1, 0.2]));

    assert!(matches!(
        provider_response_outcome(429, Some(bits(&[0.1]))).unwrap_err(),
        EmbedError::EmbeddingProvider(_)
    ));
    assert!(matches!(
        provider_response_outcome(200, None).unwrap_err(),
        EmbedError::EmbeddingProvider(_)
    ));
}

#[test]
fn test_generate_step_retries_provider_errors() {
    let embedder = Embedder::new(&test_config()).unwrap();
    // Attempts below the budget are retried after the configured delay.
    let step = embedder.generate_step(
        1,
        Err(EmbedError::Http("timeout".to_string())),
        0,
        0,
        "ctx",
    );
    assert!(matches!(step, EmbedStep::RetryAfter(1000)));
    // At the budget, the error is final.
    let step = embedder.generate_step(
        3,
        Err(EmbedError::Http("timeout".to_string())),
        0,
        0,
        "ctx",
    );
    assert!(matches!(step, EmbedStep::Fail(EmbedError::Http(_))));
}

#[test]
fn test_validation_failure_with_retry() {
    // Validator requires dim=1024 and magnitude in [0.5, 2.0]; the provider
    // returns dim=512 twice, then dim=1024 with magnitude 1.0. With
    // retry_attempts=3 the lifecycle succeeds on the third attempt and the
    // validation metric counts fail=2, pass=1.
    let mut config = test_config();
    config.embedding_provider = "together".to_string();
    config.together_api_key = Some("tk".to_string());
    config.embedding_model = "intfloat/multilingual-e5-large-instruct".to_string();
    let embedder = Embedder::new(&config).unwrap();
    let mut metrics = Metrics::new();

    let short: Vec<u32> = bits(&vec![0.03f32; 512]);
    let scale = 1.0f32 / 32.0;
    let good_values: Vec<f32> = (0..1024)
        .map(|i| if i % 2 == 0 { scale } else { -scale })
        .collect();
    let good = bits(&good_values);
    // Magnitude of the good vector: sqrt(1024) * (1/32) = 1.0 exactly.
    let magnitude_micros: u64 = 1_000_000;
    let variance_picos: u64 = (0.0009765625f64 * 1e12) as u64;

    let step1 = embedder.generate_step(1, Ok(short.clone()), 700_000, 0, "a/b");
    assert!(matches!(step1, EmbedStep::RetryAfter(1000)));
    metrics.record_embedding_validation("e5", false);

    let step2 = embedder.generate_step(2, Ok(short), 700_000, 0, "a/b");
    assert!(matches!(step2, EmbedStep::RetryAfter(1000)));
    metrics.record_embedding_validation("e5", false);

    let step3 = embedder.generate_step(3, Ok(good.clone()), magnitude_micros, variance_picos, "a/b");
    match step3 {
        EmbedStep::Done(v) => assert_eq!(v, good),
        _ => panic!("third attempt should be accepted"),
    }
    metrics.record_embedding_validation("e5", true);

    assert_eq!(metrics.embedding_validations_fail, 2);
    assert_eq!(metrics.embedding_validations_pass, 1);
}

#[test]
fn test_enable_disable_validation() {
    let mut embedder = Embedder::new(&test_config()).unwrap();
    assert!(embedder.validator.is_none());
    embedder.enable_validation();
    assert!(embedder.validator.is_some());
    embedder.disable_validation();
    assert!(embedder.validator.is_none());
}
