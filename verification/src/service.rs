//! Service-level decisions: the per-provider protection settings applied
//! at startup, the discovery channel's capacity, and the two discovery
//! sources' stepping rules. The asynchronous loops around these decisions
//! run in the shell.

use vstd::prelude::*;

use crate::circuit_breaker::CircuitBreakerConfig;
use crate::error::EmbedError;
use crate::models::Repo;
use crate::strutil::str_eq;
use crate::strutil::string_eq_str;

verus! {

/// The rate budget (requests per minute) and breaker settings installed
/// for each known provider at startup. An unknown provider gets neither.
pub fn provider_tuning(provider: &str) -> (r: (Option<u32>, Option<CircuitBreakerConfig>))
    ensures
        provider@ == "openai"@ ==> r.0 == Some(3000u32) && r.1 == Some(
            CircuitBreakerConfig {
                failure_threshold: 5,
                timeout_duration_ms: 120_000,
                success_threshold: 3,
                failure_rate_threshold_permille: 500,
                min_requests: 10,
            },
        ),
        provider@ == "together"@ ==> r.0 == Some(1000u32) && r.1 == Some(
            CircuitBreakerConfig {
                failure_threshold: 10,
                timeout_duration_ms: 60_000,
                success_threshold: 5,
                failure_rate_threshold_permille: 600,
                min_requests: 20,
            },
        ),
        provider@ == "ollama"@ ==> r.0 == None::<u32> && r.1 == Some(
            CircuitBreakerConfig {
                failure_threshold: 3,
                timeout_duration_ms: 30_000,
                success_threshold: 2,
                failure_rate_threshold_permille: 300,
                min_requests: 5,
            },
        ),
        provider@ != "openai"@ && provider@ != "together"@ && provider@ != "ollama"@ ==> r.0
            == None::<u32> && r.1 == None::<CircuitBreakerConfig>,
{
    proof {
        reveal_strlit("openai");
        reveal_strlit("together");
        reveal_strlit("ollama");
        assert("openai"@.len() == 6 && "together"@.len() == 8 && "ollama"@.len() == 6);
        assert("openai"@ != "ollama"@) by {
            assert("openai"@[1] == 'p');
            assert("ollama"@[1] == 'l');
        }
    }
    if str_eq(provider, "openai") {
        (
            Some(3000),
            Some(
                CircuitBreakerConfig {
                    failure_threshold: 5,
                    timeout_duration_ms: 120_000,
                    success_threshold: 3,
                    failure_rate_threshold_permille: 500,
                    min_requests: 10,
                },
            ),
        )
    } else if str_eq(provider, "together") {
        (
            Some(1000),
            Some(
                CircuitBreakerConfig {
                    failure_threshold: 10,
                    timeout_duration_ms: 60_000,
                    success_threshold: 5,
                    failure_rate_threshold_permille: 600,
                    min_requests: 20,
                },
            ),
        )
    } else if str_eq(provider, "ollama") {
        (
            None,
            Some(
                CircuitBreakerConfig {
                    failure_threshold: 3,
                    timeout_duration_ms: 30_000,
                    success_threshold: 2,
                    failure_rate_threshold_permille: 300,
                    min_requests: 5,
                },
            ),
        )
    } else {
        (None, None)
    }
}

/// The discovery channel's bound: twice a full round of batches across the
/// workers, saturating at the machine limit.
pub open spec fn spec_channel_capacity(batch_size: usize, parallel_workers: usize) -> usize {
    if batch_size * parallel_workers * 2 > usize::MAX {
        usize::MAX
    } else {
        (batch_size * parallel_workers * 2) as usize
    }
}

pub fn channel_capacity(batch_size: usize, parallel_workers: usize) -> (r: usize)
    ensures
        r == spec_channel_capacity(batch_size, parallel_workers),
{
    if parallel_workers == 0 || batch_size <= usize::MAX / parallel_workers / 2 {
        proof {
            assert(batch_size * parallel_workers * 2 <= usize::MAX) by (nonlinear_arith)
                requires
                    parallel_workers == 0 || batch_size <= usize::MAX / parallel_workers / 2,
                    batch_size >= 0,
                    parallel_workers >= 0,
            ;
        }
        batch_size * parallel_workers * 2
    } else {
        proof {
            assert(batch_size * parallel_workers * 2 > usize::MAX) by (nonlinear_arith)
                requires
                    parallel_workers >= 1,
                    batch_size > usize::MAX / parallel_workers / 2,
                    usize::MAX >= 1,
            ;
        }
        usize::MAX
    }
}

/// What the backlog scanner does after one fetch: it stops on the first
/// empty result, enqueues and rests briefly after a full one, and backs
/// off for five seconds after an error.
#[derive(Debug, Clone, Copy, PartialEq, Eq, Structural)]
pub enum ScannerAction {
    /// The backlog is drained; the initial pass is over.
    Stop,
    /// Enqueue what was fetched, sleep this many milliseconds, fetch again.
    Continue { delay_ms: u64 },
    /// The fetch failed: sleep this many milliseconds, fetch again.
    Backoff { delay_ms: u64 },
}

pub fn initial_scan_step(fetched: &Result<usize, EmbedError>) -> (r: ScannerAction)
    ensures
        fetched matches Ok(n) ==> r == (if n == 0 {
            ScannerAction::Stop
        } else {
            ScannerAction::Continue { delay_ms: 100 }
        }),
        fetched is Err ==> r == (ScannerAction::Backoff { delay_ms: 5000 }),
{
    match fetched {
        Ok(n) => {
            if *n == 0 {
                ScannerAction::Stop
            } else {
                ScannerAction::Continue { delay_ms: 100 }
            }
        },
        Err(_) => ScannerAction::Backoff { delay_ms: 5000 },
    }
}

/// The change poller's bounded memory of already enqueued records.
pub struct PollerState {
    /// Ids enqueued since the last reset; no id twice.
    pub seen: Vec<String>,
    /// Polls since the last reset.
    pub tick_count: u32,
}

impl PollerState {
    pub open spec fn wf(&self) -> bool {
        forall|i: int, j: int|
            0 <= i < j < self.seen@.len() ==> (#[trigger] self.seen@[i])@ != (
            #[trigger] self.seen@[j])@
    }

    pub open spec fn spec_seen(&self, id: Seq<char>) -> bool {
        exists|i: int| 0 <= i < self.seen@.len() && (#[trigger] self.seen@[i])@ == id
    }

    pub fn new() -> (r: Self)
        ensures
            r.seen@.len() == 0,
            r.tick_count == 0,
            r.wf(),
    {
        PollerState { seen: Vec::new(), tick_count: 0 }
    }

    /// One poll tick: every hundredth tick, or once more than ten thousand
    /// ids are remembered, the memory is cleared so it cannot grow without
    /// bound.
    pub fn on_tick(&mut self)
        requires
            old(self).wf(),
        ensures
            final(self).wf(),
            ({
                let bumped = if old(self).tick_count == u32::MAX {
                    old(self).tick_count
                } else {
                    (old(self).tick_count + 1) as u32
                };
                if bumped >= 100 || old(self).seen@.len() > 10_000 {
                    final(self).seen@.len() == 0 && final(self).tick_count == 0
                } else {
                    final(self).seen@ == old(self).seen@ && final(self).tick_count == bumped
                }
            }),
    {
        self.tick_count = if self.tick_count == u32::MAX {
            self.tick_count
        } else {
            self.tick_count + 1
        };
        if self.tick_count >= 100 || self.seen.len() > 10_000 {
            self.seen.clear();
            self.tick_count = 0;
        }
    }

    /// Whether `id` still has to be enqueued; a fresh id is remembered.
    pub fn should_enqueue(&mut self, id: &str) -> (fresh: bool)
        requires
            old(self).wf(),
        ensures
            final(self).wf(),
            final(self).tick_count == old(self).tick_count,
            fresh <==> !old(self).spec_seen(id@),
            !fresh ==> final(self).seen@ == old(self).seen@,
            fresh ==> final(self).seen@.len() == old(self).seen@.len() + 1
                && final(self).seen@.subrange(0, old(self).seen@.len() as int) == old(self).seen@
                && final(self).seen@.last()@ == id@,
    {
        let mut i: usize = 0;
        while i < self.seen.len()
            invariant
                *self == *old(self),
                old(self).wf(),
                i <= self.seen@.len(),
                forall|j: int| 0 <= j < i ==> (#[trigger] self.seen@[j])@ != id@,
            decreases self.seen@.len() - i,
        {
            if string_eq_str(&self.seen[i], id) {
                return false;
            }
            i = i + 1;
        }
        let ghost pre = self.seen@;
        self.seen.push(id.to_owned());
        proof {
            assert(self.seen@.subrange(0, pre.len() as int) =~= pre);
            assert forall|a: int, b: int|
                0 <= a < b < self.seen@.len() implies (#[trigger] self.seen@[a])@ != (
            #[trigger] self.seen@[b])@ by {
                assert(self.seen@[a] == pre[a]);
                if b < pre.len() {
                    assert(self.seen@[b] == pre[b]);
                } else {
                    assert(self.seen@[b]@ == id@);
                }
            }
        }
        true
    }
}

/// Discovery selects exactly the records that still need an embedding —
/// so a record whose completed write has landed, and which has not changed
/// since, is never picked up again.
pub open spec fn spec_discovery_selects(r: Repo) -> bool {
    r.spec_needs_embedding()
}

/// Success is idempotent: once a completed write for a record has landed —
/// a non-empty vector written no earlier than the record's last
/// modification — discovery no longer selects the record, so re-running
/// the worker issues no new write for it.
pub proof fn lemma_success_is_idempotent(pre: Repo, embedding: Vec<u32>, now_ms: u64)
    requires
        embedding@.len() > 0,
        now_ms >= pre.updated_at_ms,
    ensures
        !spec_discovery_selects(Repo::spec_after_embedding_write(pre, embedding, now_ms)),
{
}

} // verus!
