//! Per-provider token-bucket rate limiting.
//!
//! Each configured provider gets a bucket sized from its requests-per-minute
//! budget, counted in thousandths of a token so that refills are exact
//! integer arithmetic. A provider configured with zero requests per minute
//! gets no bucket at all, and admission for it is immediate. Operations
//! take the current clock reading; the surrounding task performs any
//! waiting this module asks for.

use vstd::prelude::*;

use crate::error::EmbedError;
use crate::strutil::string_eq_str;
use crate::timing::elapsed_ms;
use crate::timing::spec_elapsed_ms;

verus! {

/// A token bucket for one provider, in thousandths of a token.
#[derive(Debug, Clone, Copy)]
pub struct TokenBucket {
    /// The budget this bucket was configured with; always positive.
    pub requests_per_minute: u32,
    /// Currently available thousandths of a token, at most the capacity.
    pub tokens_milli: u64,
    /// Clock reading of the last refill.
    pub last_refill_ms: u64,
}

impl TokenBucket {
    /// Capacity: one minute's budget, in thousandths of a token.
    pub open spec fn spec_capacity_milli(&self) -> u64 {
        (self.requests_per_minute * 1000) as u64
    }

    pub open spec fn wf(&self) -> bool {
        &&& self.requests_per_minute >= 1
        &&& self.tokens_milli <= self.spec_capacity_milli()
    }

    /// A full bucket for `requests_per_minute`.
    pub open spec fn spec_full(requests_per_minute: u32, now_ms: u64) -> Self {
        TokenBucket {
            requests_per_minute,
            tokens_milli: (requests_per_minute * 1000) as u64,
            last_refill_ms: now_ms,
        }
    }

    /// The bucket refilled at `now_ms`: every elapsed millisecond earns
    /// one sixtieth of the per-minute budget in thousandths, capped at the
    /// capacity.
    pub open spec fn spec_refilled(&self, now_ms: u64) -> Self {
        let earned = spec_elapsed_ms(now_ms, self.last_refill_ms) * self.requests_per_minute / 60;
        let total = self.tokens_milli + earned;
        TokenBucket {
            tokens_milli: if total > self.spec_capacity_milli() {
                self.spec_capacity_milli()
            } else {
                total as u64
            },
            last_refill_ms: now_ms,
            ..*self
        }
    }

    /// Brings the bucket up to date with the clock.
    fn refill(&mut self, now_ms: u64)
        requires
            old(self).wf(),
        ensures
            *final(self) == old(self).spec_refilled(now_ms),
            final(self).wf(),
    {
        let elapsed = elapsed_ms(now_ms, self.last_refill_ms);
        proof {
            assert((elapsed as u128) * (self.requests_per_minute as u128) < (
            0x1_0000_0000_0000_0000u128) * (0x1_0000_0000u128)) by (nonlinear_arith)
                requires
                    elapsed < 0x1_0000_0000_0000_0000u128,
                    self.requests_per_minute < 0x1_0000_0000u128,
            ;
        }
        let earned: u128 = (elapsed as u128) * (self.requests_per_minute as u128) / 60;
        let capacity: u64 = (self.requests_per_minute as u64) * 1000;
        let total: u128 = (self.tokens_milli as u128) + earned;
        self.tokens_milli = if total > capacity as u128 {
            capacity
        } else {
            total as u64
        };
        self.last_refill_ms = now_ms;
    }
}

/// One named bucket held by the manager.
pub struct ProviderLimiter {
    pub provider: String,
    pub bucket: TokenBucket,
}

/// Holds one token bucket per configured provider.
pub struct RateLimiterManager {
    pub limiters: Vec<ProviderLimiter>,
}

impl RateLimiterManager {
    /// Buckets are well-formed and each provider has at most one.
    pub open spec fn wf(&self) -> bool {
        &&& forall|i: int, j: int|
            0 <= i < j < self.limiters@.len() ==> (#[trigger] self.limiters@[i]).provider@ != (
            #[trigger] self.limiters@[j]).provider@
        &&& forall|i: int| 0 <= i < self.limiters@.len() ==> (#[trigger] self.limiters@[i]).bucket.wf()
    }

    pub open spec fn spec_has(&self, provider: Seq<char>) -> bool {
        exists|i: int|
            0 <= i < self.limiters@.len() && (#[trigger] self.limiters@[i]).provider@ == provider
    }

    pub open spec fn spec_index_of(&self, provider: Seq<char>) -> int {
        choose|i: int|
            0 <= i < self.limiters@.len() && (#[trigger] self.limiters@[i]).provider@ == provider
    }

    pub fn new() -> (r: Self)
        ensures
            r.limiters@.len() == 0,
            r.wf(),
    {
        RateLimiterManager { limiters: Vec::new() }
    }

    fn find(&self, provider: &str) -> (r: Option<usize>)
        ensures
            match r {
                Some(i) => i < self.limiters@.len() && self.limiters@[i as int].provider@
                    == provider@ && self.spec_has(provider@),
                None => !self.spec_has(provider@),
            },
    {
        let mut i: usize = 0;
        while i < self.limiters.len()
            invariant
                i <= self.limiters@.len(),
                forall|j: int| 0 <= j < i ==> (#[trigger] self.limiters@[j]).provider@ != provider@,
            decreases self.limiters@.len() - i,
        {
            if string_eq_str(&self.limiters[i].provider, provider) {
                return Some(i);
            }
            i = i + 1;
        }
        None
    }

    /// Installs (or replaces) the bucket for `provider`, full at `now_ms`.
    /// A budget of zero requests per minute means unlimited: no bucket is
    /// installed and the manager is left unchanged.
    pub fn configure_provider(
        &mut self,
        provider: &str,
        requests_per_minute: u32,
        now_ms: u64,
    ) -> (r: Result<(), EmbedError>)
        requires
            old(self).wf(),
        ensures
            r is Ok,
            final(self).wf(),
            requests_per_minute == 0 ==> final(self).limiters@ == old(self).limiters@,
            requests_per_minute > 0 && old(self).spec_has(provider@) ==> {
                let i = old(self).spec_index_of(provider@);
                &&& final(self).limiters@.len() == old(self).limiters@.len()
                &&& final(self).limiters@[i].provider@ == provider@
                &&& final(self).limiters@[i].bucket == TokenBucket::spec_full(
                    requests_per_minute,
                    now_ms,
                )
                &&& forall|j: int|
                    0 <= j < old(self).limiters@.len() && j != i ==> final(self).limiters@[j]
                        == old(self).limiters@[j]
            },
            requests_per_minute > 0 && !old(self).spec_has(provider@) ==> {
                &&& final(self).limiters@.len() == old(self).limiters@.len() + 1
                &&& final(self).limiters@.subrange(0, old(self).limiters@.len() as int) == old(self).limiters@
                &&& final(self).limiters@.last().provider@ == provider@
                &&& final(self).limiters@.last().bucket == TokenBucket::spec_full(
                    requests_per_minute,
                    now_ms,
                )
            },
    {
        if requests_per_minute == 0 {
            return Ok(());
        }
        let bucket = TokenBucket {
            requests_per_minute,
            tokens_milli: (requests_per_minute as u64) * 1000,
            last_refill_ms: now_ms,
        };
        match self.find(provider) {
            Some(i) => {
                proof {
                    let k = self.spec_index_of(provider@);
                    assert(self.limiters@[k].provider@ == provider@);
                    assert(k == i as int);
                }
                let name = provider.to_owned();
                self.limiters[i] = ProviderLimiter { provider: name, bucket };
            },
            None => {
                let name = provider.to_owned();
                self.limiters.push(ProviderLimiter { provider: name, bucket });
                proof {
                    let pre = old(self).limiters@;
                    assert(self.limiters@.subrange(0, pre.len() as int) =~= pre);
                }
            },
        }
        Ok(())
    }

    /// Non-blocking admission check: takes a token when one is available,
    /// reports `RateLimitExceeded` otherwise. A provider without a bucket
    /// is never limited.
    pub fn check_rate_limit(&mut self, provider: &str, now_ms: u64) -> (r: Result<(), EmbedError>)
        requires
            old(self).wf(),
        ensures
            final(self).wf(),
            !old(self).spec_has(provider@) ==> r is Ok && final(self).limiters@ == old(self).limiters@,
            old(self).spec_has(provider@) ==> {
                let i = old(self).spec_index_of(provider@);
                let refilled = old(self).limiters@[i].bucket.spec_refilled(now_ms);
                &&& (r is Ok <==> refilled.tokens_milli >= 1000)
                &&& (r is Err ==> (r->Err_0 matches EmbedError::RateLimitExceeded {
                    provider: p,
                } && p@ == provider@))
                &&& final(self).limiters@ == old(self).limiters@.update(
                    i,
                    ProviderLimiter {
                        provider: old(self).limiters@[i].provider,
                        bucket: if refilled.tokens_milli >= 1000 {
                            TokenBucket {
                                tokens_milli: (refilled.tokens_milli - 1000) as u64,
                                ..refilled
                            }
                        } else {
                            refilled
                        },
                    },
                )
            },
    {
        match self.find(provider) {
            None => Ok(()),
            Some(i) => {
                proof {
                    let k = self.spec_index_of(provider@);
                    assert(self.limiters@[k].provider@ == provider@);
                    assert(k == i as int);
                }
                self.limiters[i].bucket.refill(now_ms);
                if self.limiters[i].bucket.tokens_milli >= 1000 {
                    self.limiters[i].bucket.tokens_milli = self.limiters[i].bucket.tokens_milli
                        - 1000;
                    proof {
                        assert(final(self).limiters@ =~= old(self).limiters@.update(
                            i as int,
                            final(self).limiters@[i as int],
                        ));
                    }
                    Ok(())
                } else {
                    proof {
                        assert(final(self).limiters@ =~= old(self).limiters@.update(
                            i as int,
                            final(self).limiters@[i as int],
                        ));
                    }
                    Err(EmbedError::RateLimitExceeded { provider: provider.to_owned() })
                }
            },
        }
    }

    /// Admission with waiting: returns 0 after taking a token, otherwise
    /// the number of milliseconds after which the next token is due. The
    /// surrounding task sleeps that long and asks again. A provider with
    /// no bucket is admitted immediately.
    pub fn wait_for_permit(&mut self, provider: &str, now_ms: u64) -> (delay_ms: u64)
        requires
            old(self).wf(),
        ensures
            final(self).wf(),
            !old(self).spec_has(provider@) ==> delay_ms == 0 && final(self).limiters@ == old(self).limiters@,
            old(self).spec_has(provider@) ==> {
                let i = old(self).spec_index_of(provider@);
                let refilled = old(self).limiters@[i].bucket.spec_refilled(now_ms);
                &&& (delay_ms == 0 <==> refilled.tokens_milli >= 1000)
                &&& final(self).limiters@ == old(self).limiters@.update(
                    i,
                    ProviderLimiter {
                        provider: old(self).limiters@[i].provider,
                        bucket: if refilled.tokens_milli >= 1000 {
                            TokenBucket {
                                tokens_milli: (refilled.tokens_milli - 1000) as u64,
                                ..refilled
                            }
                        } else {
                            refilled
                        },
                    },
                )
                &&& (refilled.tokens_milli < 1000 ==> delay_ms == spec_wait_hint(refilled))
            },
    {
        match self.find(provider) {
            None => 0,
            Some(i) => {
                proof {
                    let k = self.spec_index_of(provider@);
                    assert(self.limiters@[k].provider@ == provider@);
                    assert(k == i as int);
                }
                self.limiters[i].bucket.refill(now_ms);
                if self.limiters[i].bucket.tokens_milli >= 1000 {
                    self.limiters[i].bucket.tokens_milli = self.limiters[i].bucket.tokens_milli
                        - 1000;
                    proof {
                        assert(final(self).limiters@ =~= old(self).limiters@.update(
                            i as int,
                            final(self).limiters@[i as int],
                        ));
                    }
                    0
                } else {
                    let missing: u64 = 1000 - self.limiters[i].bucket.tokens_milli;
                    let rpm = self.limiters[i].bucket.requests_per_minute;
                    proof {
                        assert(final(self).limiters@ =~= old(self).limiters@.update(
                            i as int,
                            final(self).limiters@[i as int],
                        ));
                    }
                    let delay = (missing * 60 + (rpm as u64) - 1) / (rpm as u64);
                    if delay == 0 {
                        1
                    } else {
                        delay
                    }
                }
            },
        }
    }
}

/// Milliseconds until the next token is due on a depleted bucket: the
/// missing thousandths divided by the per-millisecond earning rate, rounded
/// up, and at least one.
pub open spec fn spec_wait_hint(bucket: TokenBucket) -> u64 {
    let missing: int = 1000 - bucket.tokens_milli;
    let delay: int = (missing * 60 + bucket.requests_per_minute - 1) / (
    bucket.requests_per_minute as int);
    if delay == 0 {
        1
    } else {
        delay as u64
    }
}

} // verus!
