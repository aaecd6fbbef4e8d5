//! Counters and gauges that the pipeline maintains about its own work.
//!
//! The process-wide registry and the per-label export format belong to the
//! monitoring shell around the library; here each family is a plain counter
//! or gauge with a pinned update rule, so that every recording path of the
//! pipeline is verified to touch exactly the counter it means to.

use vstd::prelude::*;

use crate::strutil::str_eq;
use crate::timing::sat_inc_u64;

verus! {

/// Saturating addition of a signed delta to a gauge.
pub open spec fn sat_add_i64(x: i64, d: i64) -> i64 {
    if x + d > i64::MAX {
        i64::MAX
    } else if x + d < i64::MIN {
        i64::MIN
    } else {
        (x + d) as i64
    }
}

/// The pipeline's metrics.
#[derive(Debug, Clone, Copy)]
pub struct Metrics {
    pub embeddings_total: u64,
    pub embeddings_errors: u64,
    pub repos_pending: i64,
    pub repos_processed: u64,
    pub provider_requests_success: u64,
    pub provider_requests_failure: u64,
    pub rate_limits_total: u64,
    pub active_connections: i64,
    /// Last reported breaker state: 0 closed, 1 open, 2 half-open.
    pub circuit_breaker_state: i64,
    pub retry_attempts: u64,
    pub pool_connections_active: i64,
    pub pool_connections_idle: i64,
    pub pool_connections_waiting: i64,
    pub pool_connections_created: u64,
    pub pool_connections_recycled: u64,
    pub pool_connection_errors: u64,
    pub pool_health_check_failures: u64,
    pub embedding_validations_pass: u64,
    pub embedding_validations_fail: u64,
}

impl Metrics {
    pub open spec fn spec_zeroed() -> Self {
        Metrics {
            embeddings_total: 0,
            embeddings_errors: 0,
            repos_pending: 0,
            repos_processed: 0,
            provider_requests_success: 0,
            provider_requests_failure: 0,
            rate_limits_total: 0,
            active_connections: 0,
            circuit_breaker_state: 0,
            retry_attempts: 0,
            pool_connections_active: 0,
            pool_connections_idle: 0,
            pool_connections_waiting: 0,
            pool_connections_created: 0,
            pool_connections_recycled: 0,
            pool_connection_errors: 0,
            pool_health_check_failures: 0,
            embedding_validations_pass: 0,
            embedding_validations_fail: 0,
        }
    }

    pub fn new() -> (r: Self)
        ensures
            r == Self::spec_zeroed(),
    {
        Metrics {
            embeddings_total: 0,
            embeddings_errors: 0,
            repos_pending: 0,
            repos_processed: 0,
            provider_requests_success: 0,
            provider_requests_failure: 0,
            rate_limits_total: 0,
            active_connections: 0,
            circuit_breaker_state: 0,
            retry_attempts: 0,
            pool_connections_active: 0,
            pool_connections_idle: 0,
            pool_connections_waiting: 0,
            pool_connections_created: 0,
            pool_connections_recycled: 0,
            pool_connection_errors: 0,
            pool_health_check_failures: 0,
            embedding_validations_pass: 0,
            embedding_validations_fail: 0,
        }
    }

    /// Counts one generated embedding and one processed record.
    pub fn record_embedding_generated(&mut self, provider: &str, model: &str, duration_ms: u64)
        ensures
            *final(self) == (Metrics {
                embeddings_total: sat_inc_u64(old(self).embeddings_total),
                repos_processed: sat_inc_u64(old(self).repos_processed),
                ..*old(self)
            }),
    {
        self.embeddings_total = if self.embeddings_total == u64::MAX {
            self.embeddings_total
        } else {
            self.embeddings_total + 1
        };
        self.repos_processed = if self.repos_processed == u64::MAX {
            self.repos_processed
        } else {
            self.repos_processed + 1
        };
    }

    /// Counts one embedding error.
    pub fn record_embedding_error(&mut self, provider: &str, error_type: &str)
        ensures
            *final(self) == (Metrics {
                embeddings_errors: sat_inc_u64(old(self).embeddings_errors),
                ..*old(self)
            }),
    {
        self.embeddings_errors = if self.embeddings_errors == u64::MAX {
            self.embeddings_errors
        } else {
            self.embeddings_errors + 1
        };
    }

    /// Counts one request to a provider, by outcome.
    pub fn record_provider_request(&mut self, provider: &str, success: bool)
        ensures
            success ==> *final(self) == (Metrics {
                provider_requests_success: sat_inc_u64(old(self).provider_requests_success),
                ..*old(self)
            }),
            !success ==> *final(self) == (Metrics {
                provider_requests_failure: sat_inc_u64(old(self).provider_requests_failure),
                ..*old(self)
            }),
    {
        if success {
            self.provider_requests_success = if self.provider_requests_success == u64::MAX {
                self.provider_requests_success
            } else {
                self.provider_requests_success + 1
            };
        } else {
            self.provider_requests_failure = if self.provider_requests_failure == u64::MAX {
                self.provider_requests_failure
            } else {
                self.provider_requests_failure + 1
            };
        }
    }

    /// Counts one rate-limit hit.
    pub fn record_rate_limit(&mut self, provider: &str)
        ensures
            *final(self) == (Metrics {
                rate_limits_total: sat_inc_u64(old(self).rate_limits_total),
                ..*old(self)
            }),
    {
        self.rate_limits_total = if self.rate_limits_total == u64::MAX {
            self.rate_limits_total
        } else {
            self.rate_limits_total + 1
        };
    }

    /// Publishes the number of records still waiting for an embedding.
    pub fn set_pending_repos(&mut self, count: i64)
        ensures
            *final(self) == (Metrics { repos_pending: count, ..*old(self) }),
    {
        self.repos_pending = count;
    }

    /// Moves the connection gauge by `delta`, saturating at the bounds.
    pub fn update_active_connections(&mut self, conn_type: &str, delta: i64)
        ensures
            *final(self) == (Metrics {
                active_connections: sat_add_i64(old(self).active_connections, delta),
                ..*old(self)
            }),
    {
        self.active_connections = if delta >= 0 {
            if self.active_connections <= i64::MAX - delta {
                self.active_connections + delta
            } else {
                i64::MAX
            }
        } else {
            if self.active_connections >= i64::MIN - delta {
                self.active_connections + delta
            } else {
                i64::MIN
            }
        };
    }

    /// Publishes a breaker state: 0 for "closed", 1 for "open", 2 for
    /// "half_open", and 0 for anything else.
    pub fn record_circuit_breaker_state(&mut self, service: &str, state: &str)
        ensures
            *final(self) == (Metrics {
                circuit_breaker_state: if state@ == "open"@ {
                    1
                } else if state@ == "half_open"@ {
                    2
                } else {
                    0
                },
                ..*old(self)
            }),
    {
        self.circuit_breaker_state = if str_eq(state, "open") {
            1
        } else if str_eq(state, "half_open") {
            2
        } else {
            0
        };
    }

    /// Counts one retry attempt.
    pub fn record_retry(&mut self, operation: &str)
        ensures
            *final(self) == (Metrics {
                retry_attempts: sat_inc_u64(old(self).retry_attempts),
                ..*old(self)
            }),
    {
        self.retry_attempts = if self.retry_attempts == u64::MAX {
            self.retry_attempts
        } else {
            self.retry_attempts + 1
        };
    }

    pub fn set_pool_connections_active(&mut self, count: i64)
        ensures
            *final(self) == (Metrics { pool_connections_active: count, ..*old(self) }),
    {
        self.pool_connections_active = count;
    }

    pub fn set_pool_connections_idle(&mut self, count: i64)
        ensures
            *final(self) == (Metrics { pool_connections_idle: count, ..*old(self) }),
    {
        self.pool_connections_idle = count;
    }

    pub fn set_pool_connections_waiting(&mut self, count: i64)
        ensures
            *final(self) == (Metrics { pool_connections_waiting: count, ..*old(self) }),
    {
        self.pool_connections_waiting = count;
    }

    pub fn increment_pool_connections_created(&mut self)
        ensures
            *final(self) == (Metrics {
                pool_connections_created: sat_inc_u64(old(self).pool_connections_created),
                ..*old(self)
            }),
    {
        self.pool_connections_created = if self.pool_connections_created == u64::MAX {
            self.pool_connections_created
        } else {
            self.pool_connections_created + 1
        };
    }

    pub fn increment_pool_connections_recycled(&mut self)
        ensures
            *final(self) == (Metrics {
                pool_connections_recycled: sat_inc_u64(old(self).pool_connections_recycled),
                ..*old(self)
            }),
    {
        self.pool_connections_recycled = if self.pool_connections_recycled == u64::MAX {
            self.pool_connections_recycled
        } else {
            self.pool_connections_recycled + 1
        };
    }

    pub fn increment_pool_connection_errors(&mut self)
        ensures
            *final(self) == (Metrics {
                pool_connection_errors: sat_inc_u64(old(self).pool_connection_errors),
                ..*old(self)
            }),
    {
        self.pool_connection_errors = if self.pool_connection_errors == u64::MAX {
            self.pool_connection_errors
        } else {
            self.pool_connection_errors + 1
        };
    }

    pub fn increment_pool_health_check_failures(&mut self)
        ensures
            *final(self) == (Metrics {
                pool_health_check_failures: sat_inc_u64(old(self).pool_health_check_failures),
                ..*old(self)
            }),
    {
        self.pool_health_check_failures = if self.pool_health_check_failures == u64::MAX {
            self.pool_health_check_failures
        } else {
            self.pool_health_check_failures + 1
        };
    }

    /// Counts one validation attempt, by outcome.
    pub fn record_embedding_validation(&mut self, model: &str, success: bool)
        ensures
            success ==> *final(self) == (Metrics {
                embedding_validations_pass: sat_inc_u64(old(self).embedding_validations_pass),
                ..*old(self)
            }),
            !success ==> *final(self) == (Metrics {
                embedding_validations_fail: sat_inc_u64(old(self).embedding_validations_fail),
                ..*old(self)
            }),
    {
        if success {
            self.embedding_validations_pass = if self.embedding_validations_pass == u64::MAX {
                self.embedding_validations_pass
            } else {
                self.embedding_validations_pass + 1
            };
        } else {
            self.embedding_validations_fail = if self.embedding_validations_fail == u64::MAX {
                self.embedding_validations_fail
            } else {
                self.embedding_validations_fail + 1
            };
        }
    }
}

} // verus!
