//! The retry envelope's decision rules: which errors may be retried, how
//! many times, and how long to back off before each new attempt.
//!
//! The surrounding task performs the sleep and re-invokes the operation;
//! this module decides, so the policy holds for every sequence of failures
//! the operation may produce.

use vstd::prelude::*;

use crate::error::EmbedError;

verus! {

/// Configuration of the exponential backoff schedule. The multiplier is in
/// permille: 2000 doubles the interval on every retry.
#[derive(Debug, Clone, Copy)]
pub struct RetryConfig {
    pub max_retries: u32,
    pub initial_interval_ms: u64,
    pub max_interval_ms: u64,
    pub multiplier_permille: u32,
}

impl RetryConfig {
    pub open spec fn spec_default() -> Self {
        RetryConfig {
            max_retries: 3,
            initial_interval_ms: 100,
            max_interval_ms: 10_000,
            multiplier_permille: 2000,
        }
    }
}

impl Default for RetryConfig {
    fn default() -> (r: Self)
        ensures
            r == RetryConfig::spec_default(),
    {
        RetryConfig {
            max_retries: 3,
            initial_interval_ms: 100,
            max_interval_ms: 10_000,
            multiplier_permille: 2000,
        }
    }
}

/// One multiplication step of the schedule, capped at the ceiling.
pub open spec fn spec_backoff_step(config: RetryConfig, interval_ms: u64) -> u64 {
    let scaled = interval_ms * config.multiplier_permille / 1000;
    if scaled > config.max_interval_ms {
        config.max_interval_ms
    } else {
        scaled as u64
    }
}

/// The delay before retry number `retry_index` (counting from zero): the
/// initial interval, multiplied once per earlier retry, capped at the
/// ceiling throughout.
pub open spec fn spec_backoff_delay(config: RetryConfig, retry_index: nat) -> u64
    decreases retry_index,
{
    if retry_index == 0 {
        if config.initial_interval_ms > config.max_interval_ms {
            config.max_interval_ms
        } else {
            config.initial_interval_ms
        }
    } else {
        spec_backoff_step(config, spec_backoff_delay(config, (retry_index - 1) as nat))
    }
}

/// Computes the backoff delay before retry number `retry_index`.
pub fn backoff_delay(config: &RetryConfig, retry_index: u32) -> (r: u64)
    ensures
        r == spec_backoff_delay(*config, retry_index as nat),
{
    let mut delay: u64 = if config.initial_interval_ms > config.max_interval_ms {
        config.max_interval_ms
    } else {
        config.initial_interval_ms
    };
    let mut i: u32 = 0;
    while i < retry_index
        invariant
            i <= retry_index,
            delay == spec_backoff_delay(*config, i as nat),
        decreases retry_index - i,
    {
        proof {
            assert((delay as u128) * (config.multiplier_permille as u128) < (
            0x1_0000_0000_0000_0000u128) * (0x1_0000_0000u128)) by (nonlinear_arith)
                requires
                    delay < 0x1_0000_0000_0000_0000u128,
                    config.multiplier_permille < 0x1_0000_0000u128,
            ;
        }
        let wide: u128 = (delay as u128) * (config.multiplier_permille as u128) / 1000;
        delay = if wide > config.max_interval_ms as u128 {
            config.max_interval_ms
        } else {
            wide as u64
        };
        i = i + 1;
    }
    delay
}

/// Whether a failed operation is attempted again, and after how long.
///
/// An operation that failed with a retryable error and has not used up its
/// `max_retries` is retried after the backoff delay for this retry; a
/// non-retryable error, or an exhausted budget, stops the envelope.
pub fn should_retry(config: &RetryConfig, error: &EmbedError, retry_count: u32) -> (r: Option<u64>)
    ensures
        r is Some <==> (error.spec_is_retryable() && retry_count < config.max_retries),
        r matches Some(d) ==> d == spec_backoff_delay(*config, retry_count as nat),
{
    if error.is_retryable() && retry_count < config.max_retries {
        Some(backoff_delay(config, retry_count))
    } else {
        None
    }
}

} // verus!
