//! Per-service three-state circuit breaker with half-open probing.
//!
//! A breaker starts `Closed`. Failures open it when either the consecutive
//! failure count reaches `failure_threshold`, or at least `min_requests` have
//! been seen and the failure rate reaches `failure_rate_threshold_permille`.
//! An `Open` breaker admits nothing until `timeout_duration_ms` has passed
//! since the transition, then probes in `HalfOpen`; `success_threshold`
//! consecutive successes close it again, and any failure reopens it.

use vstd::prelude::*;

use crate::strutil::string_eq_str;
use crate::timing::sat_inc_u32;
use crate::timing::sat_inc_u64;
use crate::timing::spec_elapsed_ms;

verus! {

/// Circuit breaker states.
#[derive(Clone, Copy, Debug, PartialEq, Eq, Structural)]
pub enum CircuitState {
    /// Circuit is closed, requests flow normally.
    Closed,
    /// Circuit is open, requests are rejected.
    Open,
    /// Circuit is half-open, limited requests allowed to test recovery.
    HalfOpen,
}

/// Circuit breaker statistics.
#[derive(Clone, Copy, Debug)]
pub struct CircuitStats {
    pub total_requests: u64,
    pub failed_requests: u64,
    pub successful_requests: u64,
    pub consecutive_failures: u32,
    /// Clock reading, in milliseconds, of the most recent failure.
    pub last_failure_time: Option<u64>,
    pub state_changes: u64,
}

impl Default for CircuitStats {
    fn default() -> (r: Self)
        ensures
            r == CircuitStats::spec_default(),
    {
        CircuitStats {
            total_requests: 0,
            failed_requests: 0,
            successful_requests: 0,
            consecutive_failures: 0,
            last_failure_time: None,
            state_changes: 0,
        }
    }
}

impl CircuitStats {
    pub open spec fn spec_default() -> Self {
        CircuitStats {
            total_requests: 0,
            failed_requests: 0,
            successful_requests: 0,
            consecutive_failures: 0,
            last_failure_time: None,
            state_changes: 0,
        }
    }
}

/// Configuration for a circuit breaker.
#[derive(Clone, Copy, Debug)]
pub struct CircuitBreakerConfig {
    /// Number of consecutive failures before opening the circuit.
    pub failure_threshold: u32,
    /// How long, in milliseconds, the circuit stays open before probing.
    pub timeout_duration_ms: u64,
    /// Number of successful requests in half-open state before closing.
    pub success_threshold: u32,
    /// Failure rate, in permille, at which the circuit opens.
    pub failure_rate_threshold_permille: u32,
    /// Minimum number of requests before the failure rate is considered.
    pub min_requests: u64,
}

impl Default for CircuitBreakerConfig {
    fn default() -> (r: Self)
        ensures
            r == CircuitBreakerConfig::spec_default(),
    {
        CircuitBreakerConfig {
            failure_threshold: 5,
            timeout_duration_ms: 60_000,
            success_threshold: 3,
            failure_rate_threshold_permille: 500,
            min_requests: 10,
        }
    }
}

impl CircuitBreakerConfig {
    pub open spec fn spec_default() -> Self {
        CircuitBreakerConfig {
            failure_threshold: 5,
            timeout_duration_ms: 60_000,
            success_threshold: 3,
            failure_rate_threshold_permille: 500,
            min_requests: 10,
        }
    }
}

/// Individual circuit breaker instance. Every method takes the current clock
/// reading in milliseconds; the breaker never reads a clock itself.
#[derive(Clone, Copy, Debug)]
pub struct CircuitBreaker {
    pub state: CircuitState,
    pub stats: CircuitStats,
    pub config: CircuitBreakerConfig,
    pub last_state_change_ms: u64,
    pub half_open_successes: u32,
}

impl CircuitBreaker {
    /// Either condition under which a closed breaker opens: the consecutive
    /// failure threshold, or the failure-rate threshold once enough requests
    /// were seen.
    pub open spec fn spec_open_condition(stats: CircuitStats, config: CircuitBreakerConfig) -> bool {
        ||| stats.consecutive_failures >= config.failure_threshold
        ||| (stats.total_requests >= config.min_requests && stats.failed_requests * 1000
            >= config.failure_rate_threshold_permille * stats.total_requests)
    }

    pub open spec fn spec_new(config: CircuitBreakerConfig, now_ms: u64) -> Self {
        CircuitBreaker {
            state: CircuitState::Closed,
            stats: CircuitStats::spec_default(),
            config: config,
            last_state_change_ms: now_ms,
            half_open_successes: 0,
        }
    }

    pub fn new(config: CircuitBreakerConfig, now_ms: u64) -> (r: Self)
        ensures
            r == Self::spec_new(config, now_ms),
    {
        CircuitBreaker {
            state: CircuitState::Closed,
            stats: CircuitStats {
                total_requests: 0,
                failed_requests: 0,
                successful_requests: 0,
                consecutive_failures: 0,
                last_failure_time: None,
                state_changes: 0,
            },
            config: config,
            last_state_change_ms: now_ms,
            half_open_successes: 0,
        }
    }

    /// The breaker value after an admission check at `now_ms`, with the
    /// admission verdict.
    pub open spec fn spec_after_allow(pre: Self, now_ms: u64) -> (Self, bool) {
        match pre.state {
            CircuitState::Closed => (pre, true),
            CircuitState::Open => {
                if spec_elapsed_ms(now_ms, pre.last_state_change_ms) >= pre.config.timeout_duration_ms {
                    (
                        CircuitBreaker {
                            state: CircuitState::HalfOpen,
                            stats: CircuitStats {
                                state_changes: sat_inc_u64(pre.stats.state_changes),
                                ..pre.stats
                            },
                            last_state_change_ms: now_ms,
                            half_open_successes: 0,
                            ..pre
                        },
                        true,
                    )
                } else {
                    (pre, false)
                }
            },
            CircuitState::HalfOpen => (pre, true),
        }
    }

    /// In `Closed` admits; in `Open` admits only once the timeout has passed,
    /// moving to `HalfOpen`; in `HalfOpen` admits the probe.
    pub fn should_allow_request(&mut self, now_ms: u64) -> (allowed: bool)
        ensures
            (*final(self), allowed) == Self::spec_after_allow(*old(self), now_ms),
            // A breaker never opens on an admission check.
            !(old(self).state != CircuitState::Open && final(self).state == CircuitState::Open),
    {
        match self.state {
            CircuitState::Closed => true,
            CircuitState::Open => {
                let elapsed: u64 = if now_ms >= self.last_state_change_ms {
                    now_ms - self.last_state_change_ms
                } else {
                    0
                };
                if elapsed >= self.config.timeout_duration_ms {
                    self.state = CircuitState::HalfOpen;
                    self.stats.state_changes = if self.stats.state_changes == u64::MAX {
                        self.stats.state_changes
                    } else {
                        self.stats.state_changes + 1
                    };
                    self.last_state_change_ms = now_ms;
                    self.half_open_successes = 0;
                    true
                } else {
                    false
                }
            },
            CircuitState::HalfOpen => true,
        }
    }

    /// The breaker value after a recorded success at `now_ms`.
    pub open spec fn spec_after_success(pre: Self, now_ms: u64) -> Self {
        let stats = CircuitStats {
            total_requests: sat_inc_u64(pre.stats.total_requests),
            successful_requests: sat_inc_u64(pre.stats.successful_requests),
            consecutive_failures: 0,
            ..pre.stats
        };
        match pre.state {
            CircuitState::HalfOpen => {
                let probes = sat_inc_u32(pre.half_open_successes);
                if probes >= pre.config.success_threshold {
                    CircuitBreaker {
                        state: CircuitState::Closed,
                        stats: CircuitStats { state_changes: sat_inc_u64(stats.state_changes), ..stats },
                        last_state_change_ms: now_ms,
                        half_open_successes: probes,
                        ..pre
                    }
                } else {
                    CircuitBreaker { stats, half_open_successes: probes, ..pre }
                }
            },
            _ => CircuitBreaker { stats, ..pre },
        }
    }

    /// Counts the success, resets the consecutive-failure streak, and in
    /// `HalfOpen` closes the circuit once enough probes succeeded.
    pub fn record_success(&mut self, now_ms: u64)
        ensures
            *final(self) == Self::spec_after_success(*old(self), now_ms),
            // A success never opens the circuit.
            !(old(self).state != CircuitState::Open && final(self).state == CircuitState::Open),
    {
        self.stats.total_requests = if self.stats.total_requests == u64::MAX {
            self.stats.total_requests
        } else {
            self.stats.total_requests + 1
        };
        self.stats.successful_requests = if self.stats.successful_requests == u64::MAX {
            self.stats.successful_requests
        } else {
            self.stats.successful_requests + 1
        };
        self.stats.consecutive_failures = 0;

        match self.state {
            CircuitState::HalfOpen => {
                self.half_open_successes = if self.half_open_successes == u32::MAX {
                    self.half_open_successes
                } else {
                    self.half_open_successes + 1
                };
                if self.half_open_successes >= self.config.success_threshold {
                    self.state = CircuitState::Closed;
                    self.stats.state_changes = if self.stats.state_changes == u64::MAX {
                        self.stats.state_changes
                    } else {
                        self.stats.state_changes + 1
                    };
                    self.last_state_change_ms = now_ms;
                }
            },
            _ => {},
        }
    }

    /// The statistics after a recorded failure at `now_ms`.
    pub open spec fn spec_stats_after_failure(stats: CircuitStats, now_ms: u64) -> CircuitStats {
        CircuitStats {
            total_requests: sat_inc_u64(stats.total_requests),
            failed_requests: sat_inc_u64(stats.failed_requests),
            consecutive_failures: sat_inc_u32(stats.consecutive_failures),
            last_failure_time: Some(now_ms),
            ..stats
        }
    }

    /// The breaker value after a recorded failure at `now_ms`.
    pub open spec fn spec_after_failure(pre: Self, now_ms: u64) -> Self {
        let stats = Self::spec_stats_after_failure(pre.stats, now_ms);
        match pre.state {
            CircuitState::Closed => {
                if Self::spec_open_condition(stats, pre.config) {
                    CircuitBreaker {
                        state: CircuitState::Open,
                        stats: CircuitStats { state_changes: sat_inc_u64(stats.state_changes), ..stats },
                        last_state_change_ms: now_ms,
                        ..pre
                    }
                } else {
                    CircuitBreaker { stats, ..pre }
                }
            },
            CircuitState::HalfOpen => {
                // Any failure while probing reopens the circuit.
                CircuitBreaker {
                    state: CircuitState::Open,
                    stats: CircuitStats { state_changes: sat_inc_u64(stats.state_changes), ..stats },
                    last_state_change_ms: now_ms,
                    ..pre
                }
            },
            CircuitState::Open => CircuitBreaker { stats, ..pre },
        }
    }

    /// Counts the failure and opens the circuit where the rules require it.
    /// A closed breaker opens only when one of the two open conditions holds
    /// on the updated statistics.
    pub fn record_failure(&mut self, now_ms: u64)
        ensures
            *final(self) == Self::spec_after_failure(*old(self), now_ms),
            (old(self).state == CircuitState::Closed && final(self).state == CircuitState::Open)
                ==> Self::spec_open_condition(
                Self::spec_stats_after_failure(old(self).stats, now_ms),
                old(self).config,
            ),
    {
        self.stats.total_requests = if self.stats.total_requests == u64::MAX {
            self.stats.total_requests
        } else {
            self.stats.total_requests + 1
        };
        self.stats.failed_requests = if self.stats.failed_requests == u64::MAX {
            self.stats.failed_requests
        } else {
            self.stats.failed_requests + 1
        };
        self.stats.consecutive_failures = if self.stats.consecutive_failures == u32::MAX {
            self.stats.consecutive_failures
        } else {
            self.stats.consecutive_failures + 1
        };
        self.stats.last_failure_time = Some(now_ms);

        match self.state {
            CircuitState::Closed => {
                let open_now = if self.stats.consecutive_failures >= self.config.failure_threshold {
                    true
                } else if self.stats.total_requests >= self.config.min_requests {
                    proof {
                        assert((self.config.failure_rate_threshold_permille as u128) * (
                        self.stats.total_requests as u128) < (0x1_0000_0000u128) * (
                        0x1_0000_0000_0000_0000u128)) by (nonlinear_arith)
                            requires
                                self.config.failure_rate_threshold_permille < 0x1_0000_0000u128,
                                self.stats.total_requests < 0x1_0000_0000_0000_0000u128,
                        ;
                    }
                    (self.stats.failed_requests as u128) * 1000
                        >= (self.config.failure_rate_threshold_permille as u128)
                        * (self.stats.total_requests as u128)
                } else {
                    false
                };
                if open_now {
                    self.state = CircuitState::Open;
                    self.stats.state_changes = if self.stats.state_changes == u64::MAX {
                        self.stats.state_changes
                    } else {
                        self.stats.state_changes + 1
                    };
                    self.last_state_change_ms = now_ms;
                }
            },
            CircuitState::HalfOpen => {
                self.state = CircuitState::Open;
                self.stats.state_changes = if self.stats.state_changes == u64::MAX {
                    self.stats.state_changes
                } else {
                    self.stats.state_changes + 1
                };
                self.last_state_change_ms = now_ms;
            },
            CircuitState::Open => {},
        }
    }
}

/// One named breaker held by the manager.
pub struct ServiceBreaker {
    pub service: String,
    pub breaker: CircuitBreaker,
}

/// Manages one circuit breaker per service name.
pub struct CircuitBreakerManager {
    pub breakers: Vec<ServiceBreaker>,
    pub default_config: CircuitBreakerConfig,
}

impl CircuitBreakerManager {
    /// The service names, in storage order.
    pub open spec fn spec_names(&self) -> Seq<Seq<char>> {
        self.breakers@.map_values(|sb: ServiceBreaker| sb.service@)
    }

    /// Each service has at most one breaker.
    pub open spec fn wf(&self) -> bool {
        forall|i: int, j: int|
            0 <= i < j < self.spec_names().len() ==> self.spec_names()[i] !== self.spec_names()[j]
    }

    pub open spec fn spec_has(&self, name: Seq<char>) -> bool {
        exists|i: int| 0 <= i < self.spec_names().len() && self.spec_names()[i] == name
    }

    /// Index of the breaker for `name`; meaningful only when `spec_has`.
    pub open spec fn spec_index_of(&self, name: Seq<char>) -> int {
        choose|i: int| 0 <= i < self.spec_names().len() && self.spec_names()[i] == name
    }

    pub fn new() -> (r: Self)
        ensures
            r.breakers@.len() == 0,
            r.default_config == CircuitBreakerConfig::spec_default(),
            r.wf(),
    {
        CircuitBreakerManager { breakers: Vec::new(), default_config: CircuitBreakerConfig::default() }
    }

    /// Finds the stored index for `service`.
    fn find(&self, service: &str) -> (r: Option<usize>)
        ensures
            match r {
                Some(i) => i < self.breakers@.len() && self.spec_names()[i as int] == service@
                    && self.spec_has(service@),
                None => !self.spec_has(service@),
            },
    {
        let mut i: usize = 0;
        while i < self.breakers.len()
            invariant
                i <= self.breakers@.len(),
                forall|j: int| 0 <= j < i ==> self.spec_names()[j] !== service@,
            decreases self.breakers@.len() - i,
        {
            proof {
                assert(self.spec_names()[i as int] == self.breakers@[i as int].service@);
            }
            if string_eq_str(&self.breakers[i].service, service) {
                return Some(i);
            }
            i = i + 1;
        }
        None
    }

    /// Installs (or replaces) the breaker for `service` with the given
    /// settings.
    pub fn configure_service(&mut self, service: &str, config: CircuitBreakerConfig, now_ms: u64)
        requires
            old(self).wf(),
        ensures
            final(self).wf(),
            final(self).default_config == old(self).default_config,
            final(self).spec_has(service@),
            old(self).spec_has(service@) ==> {
                let i = old(self).spec_index_of(service@);
                &&& final(self).breakers@.len() == old(self).breakers@.len()
                &&& final(self).breakers@[i].service@ == service@
                &&& final(self).breakers@[i].breaker == CircuitBreaker::spec_new(config, now_ms)
                &&& forall|j: int|
                    0 <= j < old(self).breakers@.len() && j != i ==> final(self).breakers@[j]
                        == old(self).breakers@[j]
            },
            !old(self).spec_has(service@) ==> {
                &&& final(self).breakers@.len() == old(self).breakers@.len() + 1
                &&& final(self).breakers@.subrange(0, old(self).breakers@.len() as int) == old(self).breakers@
                &&& final(self).breakers@.last().service@ == service@
                &&& final(self).breakers@.last().breaker == CircuitBreaker::spec_new(config, now_ms)
            },
    {
        let fresh = CircuitBreaker::new(config, now_ms);
        match self.find(service) {
            Some(i) => {
                proof {
                    let k = self.spec_index_of(service@);
                    assert(self.spec_names()[k] == service@);
                    assert(k == i as int);
                }
                let name = service.to_owned();
                self.breakers[i] = ServiceBreaker { service: name, breaker: fresh };
                proof {
                    assert(self.spec_names() =~= old(self).spec_names());
                    assert(self.spec_names()[i as int] == service@);
                }
            },
            None => {
                let name = service.to_owned();
                self.breakers.push(ServiceBreaker { service: name, breaker: fresh });
                proof {
                    let names = self.spec_names();
                    let names_old = old(self).spec_names();
                    assert(names =~= names_old.push(service@));
                    assert(names[names.len() - 1] == service@);
                    let pre = old(self).breakers@;
                    assert(self.breakers@.subrange(0, pre.len() as int) =~= pre);
                    assert forall|a: int, b: int| 0 <= a < b < names.len() implies names[a]
                        !== names[b] by {
                        if b < names_old.len() {
                            assert(names[a] == names_old[a] && names[b] == names_old[b]);
                        } else {
                            assert(names[b] == service@);
                            assert(names[a] == names_old[a]);
                            assert(!old(self).spec_has(service@));
                        }
                    }
                }
            },
        }
    }

    /// Checks whether a request to `service` may go out. A service seen for
    /// the first time gets a breaker with the default settings, which admits
    /// the request.
    pub fn should_allow_request(&mut self, service: &str, now_ms: u64) -> (allowed: bool)
        requires
            old(self).wf(),
        ensures
            final(self).wf(),
            final(self).default_config == old(self).default_config,
            old(self).spec_has(service@) ==> {
                let i = old(self).spec_index_of(service@);
                let step = CircuitBreaker::spec_after_allow(old(self).breakers@[i].breaker, now_ms);
                &&& allowed == step.1
                &&& final(self).breakers@ == old(self).breakers@.update(
                    i,
                    ServiceBreaker { service: old(self).breakers@[i].service, breaker: step.0 },
                )
            },
            !old(self).spec_has(service@) ==> {
                &&& allowed == true
                &&& final(self).breakers@ == old(self).breakers@.push(
                    ServiceBreaker {
                        service: final(self).breakers@.last().service,
                        breaker: CircuitBreaker::spec_new(old(self).default_config, now_ms),
                    },
                )
                &&& final(self).breakers@.last().service@ == service@
            },
    {
        match self.find(service) {
            Some(i) => {
                proof {
                    let k = self.spec_index_of(service@);
                    assert(self.spec_names()[k] == service@);
                    assert(k == i as int);
                }
                let allowed = self.breakers[i].breaker.should_allow_request(now_ms);
                proof {
                    assert(self.spec_names() =~= old(self).spec_names());
                }
                allowed
            },
            None => {
                let fresh = CircuitBreaker::new(self.default_config, now_ms);
                let name = service.to_owned();
                self.breakers.push(ServiceBreaker { service: name, breaker: fresh });
                proof {
                    let names = self.spec_names();
                    let names_old = old(self).spec_names();
                    assert(names =~= names_old.push(service@));
                    assert forall|a: int, b: int| 0 <= a < b < names.len() implies names[a]
                        !== names[b] by {
                        if b < names_old.len() {
                            assert(names[a] == names_old[a] && names[b] == names_old[b]);
                        } else {
                            assert(names[b] == service@);
                            assert(names[a] == names_old[a]);
                            assert(!old(self).spec_has(service@));
                        }
                    }
                }
                true
            },
        }
    }

    /// Records a successful request for `service`, when a breaker exists for
    /// it.
    pub fn record_success(&mut self, service: &str, now_ms: u64)
        requires
            old(self).wf(),
        ensures
            final(self).wf(),
            final(self).default_config == old(self).default_config,
            old(self).spec_has(service@) ==> {
                let i = old(self).spec_index_of(service@);
                final(self).breakers@ == old(self).breakers@.update(
                    i,
                    ServiceBreaker {
                        service: old(self).breakers@[i].service,
                        breaker: CircuitBreaker::spec_after_success(
                            old(self).breakers@[i].breaker,
                            now_ms,
                        ),
                    },
                )
            },
            !old(self).spec_has(service@) ==> final(self).breakers@ == old(self).breakers@,
    {
        match self.find(service) {
            Some(i) => {
                proof {
                    let k = self.spec_index_of(service@);
                    assert(self.spec_names()[k] == service@);
                    assert(k == i as int);
                }
                self.breakers[i].breaker.record_success(now_ms);
                proof {
                    assert(self.spec_names() =~= old(self).spec_names());
                }
            },
            None => {},
        }
    }

    /// Records a failed request for `service`, when a breaker exists for it.
    /// A closed breaker opens only under the open condition of
    /// [`CircuitBreaker::spec_open_condition`].
    pub fn record_failure(&mut self, service: &str, now_ms: u64)
        requires
            old(self).wf(),
        ensures
            final(self).wf(),
            final(self).default_config == old(self).default_config,
            old(self).spec_has(service@) ==> {
                let i = old(self).spec_index_of(service@);
                final(self).breakers@ == old(self).breakers@.update(
                    i,
                    ServiceBreaker {
                        service: old(self).breakers@[i].service,
                        breaker: CircuitBreaker::spec_after_failure(
                            old(self).breakers@[i].breaker,
                            now_ms,
                        ),
                    },
                )
            },
            !old(self).spec_has(service@) ==> final(self).breakers@ == old(self).breakers@,
    {
        match self.find(service) {
            Some(i) => {
                proof {
                    let k = self.spec_index_of(service@);
                    assert(self.spec_names()[k] == service@);
                    assert(k == i as int);
                }
                self.breakers[i].breaker.record_failure(now_ms);
                proof {
                    assert(self.spec_names() =~= old(self).spec_names());
                }
            },
            None => {},
        }
    }

    /// Statistics for `service`, when a breaker exists for it.
    pub fn get_stats(&self, service: &str) -> (r: Option<CircuitStats>)
        requires
            self.wf(),
        ensures
            r is Some <==> self.spec_has(service@),
            self.spec_has(service@) ==> r == Some(
                self.breakers@[self.spec_index_of(service@)].breaker.stats,
            ),
    {
        match self.find(service) {
            Some(i) => {
                proof {
                    let k = self.spec_index_of(service@);
                    assert(self.spec_names()[k] == service@);
                    assert(k == i as int);
                }
                Some(self.breakers[i].breaker.stats)
            },
            None => None,
        }
    }

    /// Current state for `service`, when a breaker exists for it.
    pub fn get_state(&self, service: &str) -> (r: Option<CircuitState>)
        requires
            self.wf(),
        ensures
            r is Some <==> self.spec_has(service@),
            self.spec_has(service@) ==> r == Some(
                self.breakers@[self.spec_index_of(service@)].breaker.state,
            ),
    {
        match self.find(service) {
            Some(i) => {
                proof {
                    let k = self.spec_index_of(service@);
                    assert(self.spec_names()[k] == service@);
                    assert(k == i as int);
                }
                Some(self.breakers[i].breaker.state)
            },
            None => None,
        }
    }

    /// All services and their current states, in storage order.
    pub fn get_all_states(&self) -> (r: Vec<(String, CircuitState)>)
        ensures
            r@.len() == self.breakers@.len(),
            forall|i: int|
                0 <= i < r@.len() ==> (#[trigger] r@[i]).0@ == self.spec_names()[i] && r@[i].1
                    == self.breakers@[i].breaker.state,
    {
        let mut out: Vec<(String, CircuitState)> = Vec::new();
        let mut i: usize = 0;
        while i < self.breakers.len()
            invariant
                i <= self.breakers@.len(),
                out@.len() == i,
                forall|j: int|
                    0 <= j < i ==> (#[trigger] out@[j]).0@ == self.spec_names()[j] && out@[j].1
                        == self.breakers@[j].breaker.state,
            decreases self.breakers@.len() - i,
        {
            proof {
                assert(self.spec_names()[i as int] == self.breakers@[i as int].service@);
            }
            let name = self.breakers[i].service.clone();
            proof {
                assert(name@ == self.breakers@[i as int].service@);
            }
            let ghost prev = out@;
            out.push((name, self.breakers[i].breaker.state));
            proof {
                assert(out@[i as int].0@ == self.spec_names()[i as int]);
                assert(out@[i as int].1 == self.breakers@[i as int].breaker.state);
            }
            i = i + 1;
            proof {
                assert forall|j: int| 0 <= j < i implies out@[j].0@ == self.spec_names()[j]
                    && out@[j].1 == self.breakers@[j].breaker.state by {
                    if j < i - 1 {
                        assert(prev[j].0@ == self.spec_names()[j]);
                        assert(prev[j].1 == self.breakers@[j].breaker.state);
                        assert(out@[j] == prev[j]);
                    } else {
                        assert(out@[j] == out@.last());
                    }
                }
            }
        }
        out
    }

    /// The breaker value after a manual reset at `now_ms`: closed, with the
    /// failure streak and probe count cleared.
    pub open spec fn spec_after_reset(pre: CircuitBreaker, now_ms: u64) -> CircuitBreaker {
        CircuitBreaker {
            state: CircuitState::Closed,
            stats: CircuitStats { consecutive_failures: 0, ..pre.stats },
            last_state_change_ms: now_ms,
            half_open_successes: 0,
            ..pre
        }
    }

    /// Manually closes the breaker for `service`, when one exists.
    pub fn reset(&mut self, service: &str, now_ms: u64)
        requires
            old(self).wf(),
        ensures
            final(self).wf(),
            final(self).default_config == old(self).default_config,
            old(self).spec_has(service@) ==> {
                let i = old(self).spec_index_of(service@);
                final(self).breakers@ == old(self).breakers@.update(
                    i,
                    ServiceBreaker {
                        service: old(self).breakers@[i].service,
                        breaker: Self::spec_after_reset(old(self).breakers@[i].breaker, now_ms),
                    },
                )
            },
            !old(self).spec_has(service@) ==> final(self).breakers@ == old(self).breakers@,
    {
        match self.find(service) {
            Some(i) => {
                proof {
                    let k = self.spec_index_of(service@);
                    assert(self.spec_names()[k] == service@);
                    assert(k == i as int);
                }
                self.breakers[i].breaker.state = CircuitState::Closed;
                self.breakers[i].breaker.stats.consecutive_failures = 0;
                self.breakers[i].breaker.half_open_successes = 0;
                self.breakers[i].breaker.last_state_change_ms = now_ms;
                proof {
                    assert(self.spec_names() =~= old(self).spec_names());
                    assert(self.breakers@ =~= old(self).breakers@.update(
                        i as int,
                        ServiceBreaker {
                            service: old(self).breakers@[i as int].service,
                            breaker: Self::spec_after_reset(
                                old(self).breakers@[i as int].breaker,
                                now_ms,
                            ),
                        },
                    ));
                }
            },
            None => {},
        }
    }
}

impl Default for CircuitBreakerManager {
    fn default() -> (r: Self)
        ensures
            r.breakers@.len() == 0,
            r.default_config == CircuitBreakerConfig::spec_default(),
            r.wf(),
    {
        CircuitBreakerManager::new()
    }
}

} // verus!
