//! The connection pool's admission rules.
//!
//! The sessions themselves — connecting, authenticating, selecting the
//! namespace — live in the shell; what stands here is the pool's
//! accounting: the session count never exceeds the configured maximum, an
//! idle session is handed out before a new one is created, a request that
//! has waited out the acquire timeout at capacity fails, and a session
//! whose health probe failed is discarded and never handed out.

use vstd::prelude::*;

verus! {

/// Pool statistics.
#[derive(Debug, Clone, Copy)]
pub struct PoolStats {
    pub size: usize,
    pub available: usize,
    pub waiting: usize,
    pub max_size: usize,
}

/// What the pool decides for one acquisition attempt.
#[derive(Debug, Clone, Copy, PartialEq, Eq, Structural)]
pub enum AcquireDecision {
    /// Hand out an idle session.
    Reuse,
    /// Create a new session; the pool is below its maximum.
    Create,
    /// At capacity, but the wait budget is not spent: keep waiting.
    Wait,
    /// At capacity and the wait budget is spent: fail with an acquire
    /// timeout.
    Timeout,
}

/// The pool's accounting state.
#[derive(Debug, Clone, Copy)]
pub struct PoolModel {
    /// Sessions that exist, idle or handed out.
    pub size: usize,
    /// Sessions currently handed out.
    pub in_use: usize,
    pub max_size: usize,
    /// How long an acquisition may wait, in milliseconds.
    pub wait_timeout_ms: u64,
}

impl PoolModel {
    /// The session count never exceeds the maximum, and no more sessions
    /// are handed out than exist.
    pub open spec fn wf(&self) -> bool {
        &&& self.max_size >= 1
        &&& self.in_use <= self.size
        &&& self.size <= self.max_size
    }

    pub fn new(max_size: usize, wait_timeout_ms: u64) -> (r: Self)
        requires
            max_size >= 1,
        ensures
            r == (PoolModel { size: 0, in_use: 0, max_size, wait_timeout_ms }),
            r.wf(),
    {
        PoolModel { size: 0, in_use: 0, max_size, wait_timeout_ms }
    }

    /// One acquisition step after `waited_ms` of waiting: an idle session
    /// is reused; below the maximum a session is created; at capacity the
    /// request waits until the acquire timeout has passed, then fails.
    pub fn acquire_step(&mut self, waited_ms: u64) -> (r: AcquireDecision)
        requires
            old(self).wf(),
        ensures
            final(self).wf(),
            final(self).max_size == old(self).max_size,
            final(self).wait_timeout_ms == old(self).wait_timeout_ms,
            old(self).in_use < old(self).size ==> r == AcquireDecision::Reuse && *final(self) == (
            PoolModel { in_use: (old(self).in_use + 1) as usize, ..*old(self) }),
            old(self).in_use == old(self).size && old(self).size < old(self).max_size ==> r
                == AcquireDecision::Create && *final(self) == (PoolModel {
                size: (old(self).size + 1) as usize,
                in_use: (old(self).in_use + 1) as usize,
                ..*old(self)
            }),
            old(self).in_use == old(self).size && old(self).size == old(self).max_size
                ==> *final(self) == *old(self) && r == (if waited_ms >= old(self).wait_timeout_ms {
                AcquireDecision::Timeout
            } else {
                AcquireDecision::Wait
            }),
    {
        if self.in_use < self.size {
            self.in_use = self.in_use + 1;
            AcquireDecision::Reuse
        } else if self.size < self.max_size {
            self.size = self.size + 1;
            self.in_use = self.in_use + 1;
            AcquireDecision::Create
        } else if waited_ms >= self.wait_timeout_ms {
            AcquireDecision::Timeout
        } else {
            AcquireDecision::Wait
        }
    }

    /// Returns a session to the pool.
    pub fn release(&mut self)
        requires
            old(self).wf(),
            old(self).in_use > 0,
        ensures
            final(self).wf(),
            *final(self) == (PoolModel { in_use: (old(self).in_use - 1) as usize, ..*old(self) }),
    {
        self.in_use = self.in_use - 1;
    }

    /// The recycling probe ran on an idle session: a healthy session stays;
    /// a failing one is discarded, so it is never handed out again.
    pub fn recycle_step(&mut self, healthy: bool)
        requires
            old(self).wf(),
            old(self).in_use < old(self).size,
        ensures
            final(self).wf(),
            healthy ==> *final(self) == *old(self),
            !healthy ==> *final(self) == (PoolModel {
                size: (old(self).size - 1) as usize,
                ..*old(self)
            }),
    {
        if !healthy {
            self.size = self.size - 1;
        }
    }

    /// A snapshot of the pool's counters.
    pub fn stats(&self) -> (r: PoolStats)
        requires
            self.wf(),
        ensures
            r.size == self.size,
            r.available == self.size - self.in_use,
            r.waiting == 0,
            r.max_size == self.max_size,
    {
        PoolStats {
            size: self.size,
            available: self.size - self.in_use,
            waiting: 0,
            max_size: self.max_size,
        }
    }
}

} // verus!
