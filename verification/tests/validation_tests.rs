use embed_star::error::{EmbedError, ValidationFailure};
use embed_star::validation::{
    together_e5_validator, EmbeddingValidator, ValidationConfig,
};

fn bits(values: &[f32]) -> Vec<u32> {
    values.iter().map(|v| v.to_bits()).collect()
}

/// L2 magnitude in millionths, measured over the finite elements.
fn magnitude_micros(values: &[f32]) -> u64 {
    let sum: f64 = values
        .iter()
        .filter(|v| v.is_finite())
        .map(|v| (*v as f64) * (*v as f64))
        .sum();
    (sum.sqrt() * 1e6).round() as u64
}

/// Variance in trillionths, measured over the finite elements.
fn variance_picos(values: &[f32]) -> u64 {
    let finite: Vec<f64> = values.iter().filter(|v| v.is_finite()).map(|v| *v as f64).collect();
    if finite.is_empty() {
        return 0;
    }
    let mean = finite.iter().sum::<f64>() / finite.len() as f64;
    let var = finite.iter().map(|x| (x - mean) * (x - mean)).sum::<f64>() / finite.len() as f64;
    (var * 1e12).round() as u64
}

fn check(validator: &EmbeddingValidator, values: &[f32]) -> Result<(), EmbedError> {
    validator.validate(
        &bits(values),
        magnitude_micros(values),
        variance_picos(values),
        "test",
    )
}

#[test]
fn test_valid_embedding() {
    let validator = EmbeddingValidator::new(ValidationConfig::default());
    let mut embedding = Vec::new();
    for i in 0..200 {
        embedding.push(0.1 + (i % 5) as f32 * 0.1);
    }
    assert!(check(&validator, &embedding).is_ok());
}

#[test]
fn test_dimension_validation() {
    let validator = EmbeddingValidator::new(ValidationConfig {
        min_dimension: 100,
        max_dimension: 1000,
        ..Default::default()
    });

    let small = vec![0.1; 50];
    assert!(check(&validator, &small).is_err());

    let large = vec![0.1; 2000];
    assert!(check(&validator, &large).is_err());

    let mut valid = Vec::new();
    for i in 0..500 {
        valid.push(0.1 + (i % 5) as f32 * 0.1);
    }
    assert!(check(&validator, &valid).is_ok());
}

#[test]
fn test_zero_ratio_validation() {
    let validator = EmbeddingValidator::new(ValidationConfig {
        max_zero_ratio_permille: 500,
        ..Default::default()
    });

    let mut embedding = Vec::new();
    for i in 0..200 {
        embedding.push(0.1 + (i % 5) as f32 * 0.1);
    }
    // Set 60% to zero (exceeds the 50% threshold)
    for i in 0..120 {
        embedding[i] = 0.0;
    }

    let result = check(&validator, &embedding);
    assert!(result.is_err());
    assert!(matches!(
        result.unwrap_err(),
        EmbedError::Validation {
            reason: ValidationFailure::ZeroRatioExceeded { zero_count: 120, len: 200 },
            ..
        }
    ));
}

#[test]
fn test_magnitude_validation() {
    let validator = EmbeddingValidator::new(ValidationConfig {
        min_magnitude_micros: 1_000_000,
        max_magnitude_micros: 10_000_000,
        ..Default::default()
    });

    let mut small = Vec::new();
    let mut large = Vec::new();
    let mut valid = Vec::new();
    for i in 0..200 {
        let jitter = (i % 5) as f32 * 0.001;
        small.push(0.001 + jitter * 0.1);
        large.push(10.0 + jitter);
        valid.push(0.1 + jitter);
    }
    assert!(matches!(
        check(&validator, &small).unwrap_err(),
        EmbedError::Validation { reason: ValidationFailure::MagnitudeTooLow { .. }, .. }
    ));
    assert!(matches!(
        check(&validator, &large).unwrap_err(),
        EmbedError::Validation { reason: ValidationFailure::MagnitudeTooHigh { .. }, .. }
    ));
    assert!(check(&validator, &valid).is_ok());
}

#[test]
fn test_nan_validation() {
    let validator = EmbeddingValidator::new(ValidationConfig {
        check_finite: true,
        ..Default::default()
    });

    let mut embedding = vec![0.1; 200];
    for i in 0..200 {
        embedding[i] = 0.1 + (i % 5) as f32 * 0.1;
    }
    embedding[50] = f32::NAN;

    let result = check(&validator, &embedding);
    assert!(matches!(
        result.unwrap_err(),
        EmbedError::Validation { reason: ValidationFailure::NotFinite { index: 50 }, .. }
    ));
}

#[test]
fn test_infinity_validation() {
    let validator = EmbeddingValidator::new(ValidationConfig {
        check_finite: true,
        ..Default::default()
    });

    let mut embedding: Vec<f32> = (0..200).map(|i| 0.1 + (i % 5) as f32 * 0.1).collect();
    embedding[25] = f32::INFINITY;
    assert!(matches!(
        check(&validator, &embedding).unwrap_err(),
        EmbedError::Validation { reason: ValidationFailure::NotFinite { index: 25 }, .. }
    ));

    let mut embedding2: Vec<f32> = (0..200).map(|i| 0.1 + (i % 5) as f32 * 0.1).collect();
    embedding2[75] = f32::NEG_INFINITY;
    assert!(matches!(
        check(&validator, &embedding2).unwrap_err(),
        EmbedError::Validation { reason: ValidationFailure::NotFinite { index: 75 }, .. }
    ));
}

#[test]
fn test_finite_check_disabled() {
    let validator = EmbeddingValidator::new(ValidationConfig {
        check_finite: false,
        ..Default::default()
    });

    // With check_finite disabled, NaN and infinities pass the finiteness
    // stage; the aggregate measurements are taken over the finite elements.
    let mut embedding: Vec<f32> = (0..200).map(|i| 0.1 + (i % 5) as f32 * 0.1).collect();
    embedding[10] = f32::NAN;
    embedding[20] = f32::INFINITY;
    embedding[30] = f32::NEG_INFINITY;

    assert!(check(&validator, &embedding).is_ok());
}

#[test]
fn test_mixed_invalid_values() {
    let validator = EmbeddingValidator::new(ValidationConfig {
        check_finite: true,
        ..Default::default()
    });

    // Validation reports the first offending index.
    let mut embedding: Vec<f32> = (0..200).map(|i| 0.1 + (i % 5) as f32 * 0.1).collect();
    embedding[10] = f32::NAN;
    embedding[20] = f32::INFINITY;

    assert!(matches!(
        check(&validator, &embedding).unwrap_err(),
        EmbedError::Validation { reason: ValidationFailure::NotFinite { index: 10 }, .. }
    ));
}

#[test]
fn test_empty_embedding() {
    let validator = EmbeddingValidator::default();
    let result = check(&validator, &[]);
    assert!(matches!(
        result.unwrap_err(),
        EmbedError::Validation { reason: ValidationFailure::Empty, .. }
    ));
}

#[test]
fn test_dimension_check() {
    let validator = EmbeddingValidator::default().with_dimension(5);

    let correct_dim = vec![0.1, 0.2, 0.3, 0.4, 0.5];
    assert!(check(&validator, &correct_dim).is_ok());

    let wrong_dim = vec![0.1, 0.2, 0.3];
    let result = check(&validator, &wrong_dim);
    assert!(result.is_err());
    assert!(matches!(
        result.unwrap_err(),
        EmbedError::InvalidDimension { expected: 5, actual: 3 }
    ));
}

#[test]
fn test_low_variance_rejected() {
    let validator = EmbeddingValidator::default();
    // A constant vector has zero variance and is rejected as suspicious.
    let constant = vec![0.1f32; 200];
    assert!(matches!(
        check(&validator, &constant).unwrap_err(),
        EmbedError::Validation { reason: ValidationFailure::LowVariance, .. }
    ));
}

#[test]
fn test_together_e5_preset() {
    let validator = together_e5_validator();
    // 512 dimensions instead of 1024: rejected by shape.
    let short: Vec<f32> = (0..512).map(|i| ((i % 7) as f32 - 3.0) * 0.02).collect();
    assert!(matches!(
        check(&validator, &short).unwrap_err(),
        EmbedError::InvalidDimension { expected: 1024, actual: 512 }
    ));

    // 1024 dimensions, roughly unit magnitude: accepted.
    let scale = 1.0f32 / 32.0;
    let good: Vec<f32> = (0..1024)
        .map(|i| if i % 2 == 0 { scale } else { -scale * 0.9 })
        .collect();
    assert!(check(&validator, &good).is_ok());
}

#[test]
fn test_duplicate_ratio_report() {
    let validator = EmbeddingValidator::new(ValidationConfig {
        max_duplicate_ratio_permille: 500,
        ..Default::default()
    });
    // 150 of 200 elements share one value: 149 repeats out of 200 is over
    // one half.
    let mut values = vec![0.25f32; 150];
    for i in 0..50 {
        values.push(0.1 + i as f32 * 0.01);
    }
    assert!(validator.duplicate_ratio_exceeded(&bits(&values)));
    // Exceeding the duplicate threshold is reported, never fatal.
    assert!(check(&validator, &values).is_ok());

    // An evenly varied vector is under the threshold.
    let varied: Vec<f32> = (0..200).map(|i| i as f32 * 0.01).collect();
    assert!(!validator.duplicate_ratio_exceeded(&bits(&varied)));
}

fn unconstrained_shape() -> EmbeddingValidator {
    // The builder-style validator starts from loose shape bounds and
    // tightens only what each test pins down.
    EmbeddingValidator::new(ValidationConfig {
        min_dimension: 1,
        max_dimension: 4096,
        ..Default::default()
    })
}

#[test]
fn embedding_validation_test_valid_embedding() {
    let validator = unconstrained_shape();
    let embedding = vec![0.1, 0.2, -0.3, 0.4, -0.5];
    assert!(check(&validator, &embedding).is_ok());
}

#[test]
fn test_nan_detection() {
    let validator = unconstrained_shape();
    let embedding = vec![0.1, f32::NAN, 0.3];
    let result = check(&validator, &embedding);
    assert!(matches!(
        result.unwrap_err(),
        EmbedError::Validation { reason: ValidationFailure::NotFinite { index: 1 }, .. }
    ));
}

#[test]
fn test_magnitude_check() {
    let validator = unconstrained_shape().with_magnitude_range(500_000, 2_000_000);
    // The magnitude range survives, the shape bounds stay loose.
    let validator = EmbeddingValidator::new(ValidationConfig {
        min_dimension: 1,
        max_dimension: 4096,
        expected_dimension: None,
        ..validator.config
    });

    // Too small magnitude
    let small = vec![0.01, 0.01, 0.01];
    assert!(check(&validator, &small).is_err());

    // Good magnitude with variance
    let good = vec![0.4, 0.5, 0.6];
    assert!(check(&validator, &good).is_ok());

    // Too large magnitude
    let large = vec![10.0, 10.0, 10.0];
    assert!(check(&validator, &large).is_err());
}

#[test]
fn test_zero_ratio() {
    let validator = EmbeddingValidator::new(ValidationConfig {
        min_dimension: 1,
        max_dimension: 4096,
        max_zero_ratio_permille: 500,
        ..Default::default()
    });

    // 40% zeros - should pass
    let some_zeros = vec![0.0, 0.0, 0.5, 0.5, 0.5];
    assert!(check(&validator, &some_zeros).is_ok());

    // 60% zeros - should fail
    let many_zeros = vec![0.0, 0.0, 0.0, 0.5, 0.5];
    assert!(matches!(
        check(&validator, &many_zeros).unwrap_err(),
        EmbedError::Validation {
            reason: ValidationFailure::ZeroRatioExceeded { zero_count: 3, len: 5 },
            ..
        }
    ));
}
