//! Cross-instance deduplication through database-backed processing locks.
//!
//! The store enforces these rules in its stored procedures; this module
//! states them over a table model and proves the coordination invariant:
//! a record is held by at most one instance at a time. The shell issues
//! the corresponding queries and must hand every outcome back through
//! these rules.

use vstd::prelude::*;

use crate::strutil::string_eq_str;
use crate::timing::sat_add_u64;

verus! {

/// Milliseconds a fresh lock lives by default: five minutes.
pub open spec fn default_lock_duration_seconds() -> int {
    300
}

/// Identifies one worker instance and the lease length it asks for.
pub struct DeduplicationManager {
    /// Unique id of this process, prefixed `embed_star_`.
    pub instance_id: String,
    pub lock_duration_seconds: u64,
}

impl DeduplicationManager {
    /// Creates a manager with a freshly drawn instance id and the default
    /// five-minute lease.
    pub fn new() -> (r: Self)
        ensures
            r.instance_id@.subrange(0, 11) == "embed_star_"@,
            r.instance_id@.len() > 11,
            r.lock_duration_seconds == default_lock_duration_seconds(),
    {
        DeduplicationManager { instance_id: fresh_instance_id(), lock_duration_seconds: 300 }
    }
}

/// Relies on `uuid::Uuid::new_v4` for a random process identifier; nothing
/// is assumed of the drawn value, only that the result is the 36-character
/// hyphenated rendering behind the fixed `embed_star_` prefix.
#[verifier::external_body]
fn fresh_instance_id() -> (r: String)
    ensures
        r@.subrange(0, 11) == "embed_star_"@,
        r@.len() == 47,
{
    format!("embed_star_{}", uuid::Uuid::new_v4())
}

/// One row of the processing-lock table.
#[derive(Debug, Clone)]
pub struct ProcessingLock {
    pub id: String,
    pub repo_id: String,
    pub instance_id: String,
    pub locked_at_ms: u64,
    pub expires_at_ms: u64,
    pub processing_status: String,
}

/// A lock row still binds at `now_ms` while it has not expired.
pub open spec fn spec_lock_active(l: ProcessingLock, now_ms: u64) -> bool {
    l.expires_at_ms > now_ms
}

/// The processing-lock table: the rules the store's lock procedures follow.
pub struct LockTable {
    pub rows: Vec<ProcessingLock>,
}

impl LockTable {
    /// At most one row per record.
    pub open spec fn wf(&self) -> bool {
        forall|i: int, j: int|
            0 <= i < j < self.rows@.len() ==> (#[trigger] self.rows@[i]).repo_id@ != (
            #[trigger] self.rows@[j]).repo_id@
    }

    pub open spec fn spec_has(&self, repo_id: Seq<char>) -> bool {
        exists|i: int| 0 <= i < self.rows@.len() && (#[trigger] self.rows@[i]).repo_id@ == repo_id
    }

    pub open spec fn spec_index_of(&self, repo_id: Seq<char>) -> int {
        choose|i: int| 0 <= i < self.rows@.len() && (#[trigger] self.rows@[i]).repo_id@ == repo_id
    }

    /// Some instance holds an unexpired lock on the record.
    pub open spec fn spec_held(&self, repo_id: Seq<char>, now_ms: u64) -> bool {
        exists|i: int|
            0 <= i < self.rows@.len() && (#[trigger] self.rows@[i]).repo_id@ == repo_id
                && spec_lock_active(self.rows@[i], now_ms)
    }

    pub fn new() -> (r: Self)
        ensures
            r.rows@.len() == 0,
            r.wf(),
    {
        LockTable { rows: Vec::new() }
    }

    fn find(&self, repo_id: &str) -> (r: Option<usize>)
        ensures
            match r {
                Some(i) => i < self.rows@.len() && self.rows@[i as int].repo_id@ == repo_id@
                    && self.spec_has(repo_id@),
                None => !self.spec_has(repo_id@),
            },
    {
        let mut i: usize = 0;
        while i < self.rows.len()
            invariant
                i <= self.rows@.len(),
                forall|j: int| 0 <= j < i ==> (#[trigger] self.rows@[j]).repo_id@ != repo_id@,
            decreases self.rows@.len() - i,
        {
            if string_eq_str(&self.rows[i].repo_id, repo_id) {
                return Some(i);
            }
            i = i + 1;
        }
        None
    }

    /// Atomically takes the lock on `repo_id` for `instance_id`: succeeds
    /// exactly when no unexpired lock row exists for the record, replacing
    /// any expired row, and writes a `processing` row that expires
    /// `duration_seconds` from now.
    pub fn try_acquire(
        &mut self,
        repo_id: &str,
        instance_id: &str,
        now_ms: u64,
        duration_seconds: u64,
    ) -> (acquired: bool)
        requires
            old(self).wf(),
        ensures
            final(self).wf(),
            acquired <==> !old(self).spec_held(repo_id@, now_ms),
            !acquired ==> final(self).rows@ == old(self).rows@,
            acquired ==> {
                let base = if old(self).spec_has(repo_id@) {
                    old(self).rows@.remove(old(self).spec_index_of(repo_id@))
                } else {
                    old(self).rows@
                };
                &&& final(self).rows@.len() == base.len() + 1
                &&& final(self).rows@.subrange(0, base.len() as int) == base
                &&& final(self).rows@.last().repo_id@ == repo_id@
                &&& final(self).rows@.last().instance_id@ == instance_id@
                &&& final(self).rows@.last().locked_at_ms == now_ms
                &&& final(self).rows@.last().expires_at_ms == sat_add_u64(
                    now_ms,
                    sat_mul_1000(duration_seconds),
                )
                &&& final(self).rows@.last().processing_status@ == "processing"@
                &&& spec_lock_active(final(self).rows@.last(), now_ms) == (sat_add_u64(
                    now_ms,
                    sat_mul_1000(duration_seconds),
                ) > now_ms)
            },
    {
        match self.find(repo_id) {
            Some(i) => {
                proof {
                    let k = self.spec_index_of(repo_id@);
                    assert(self.rows@[k].repo_id@ == repo_id@);
                    assert(k == i as int);
                }
                if self.rows[i].expires_at_ms > now_ms {
                    proof {
                        assert(old(self).spec_held(repo_id@, now_ms));
                    }
                    return false;
                }
                proof {
                    assert forall|x: int|
                        0 <= x < self.rows@.len() && (#[trigger] self.rows@[x]).repo_id@ == repo_id@
                        implies !spec_lock_active(self.rows@[x], now_ms) by {
                        assert(x == i as int);
                    }
                }
                let ghost pre = self.rows@;
                self.rows.remove(i);
                proof {
                    lemma_lock_remove_map(pre, i as int);
                    assert forall|a: int|
                        0 <= a < self.rows@.len() implies (#[trigger] self.rows@[a]).repo_id@
                        != repo_id@ by {
                        if a < i as int {
                            assert(self.rows@[a] == pre[a]);
                        } else {
                            assert(self.rows@[a] == pre[a + 1]);
                        }
                    }
                }
                self.push_fresh(repo_id, instance_id, now_ms, duration_seconds);
                true
            },
            None => {
                self.push_fresh(repo_id, instance_id, now_ms, duration_seconds);
                true
            },
        }
    }

    /// Appends a fresh `processing` row for a record that has none.
    fn push_fresh(&mut self, repo_id: &str, instance_id: &str, now_ms: u64, duration_seconds: u64)
        requires
            old(self).wf(),
            !old(self).spec_has(repo_id@),
        ensures
            final(self).wf(),
            final(self).rows@.len() == old(self).rows@.len() + 1,
            final(self).rows@.subrange(0, old(self).rows@.len() as int) == old(self).rows@,
            final(self).rows@.last().repo_id@ == repo_id@,
            final(self).rows@.last().instance_id@ == instance_id@,
            final(self).rows@.last().locked_at_ms == now_ms,
            final(self).rows@.last().expires_at_ms == sat_add_u64(
                now_ms,
                sat_mul_1000(duration_seconds),
            ),
            final(self).rows@.last().processing_status@ == "processing"@,
    {
        let lease_ms: u64 = if duration_seconds <= u64::MAX / 1000 {
            duration_seconds * 1000
        } else {
            u64::MAX
        };
        let expires: u64 = if now_ms <= u64::MAX - lease_ms {
            now_ms + lease_ms
        } else {
            u64::MAX
        };
        let row = ProcessingLock {
            id: repo_id.to_owned(),
            repo_id: repo_id.to_owned(),
            instance_id: instance_id.to_owned(),
            locked_at_ms: now_ms,
            expires_at_ms: expires,
            processing_status: "processing".to_owned(),
        };
        let ghost pre = self.rows@;
        self.rows.push(row);
        proof {
            assert(self.rows@.subrange(0, pre.len() as int) =~= pre);
            assert forall|a: int, b: int|
                0 <= a < b < self.rows@.len() implies (#[trigger] self.rows@[a]).repo_id@ != (
            #[trigger] self.rows@[b]).repo_id@ by {
                assert(self.rows@[a] == pre[a]);
                if b < pre.len() {
                    assert(self.rows@[b] == pre[b]);
                } else {
                    assert(self.rows@[b].repo_id@ == repo_id@);
                }
            }
        }
    }

    /// Releases the lock on `repo_id`, but only for the instance that owns
    /// it: the row is removed exactly when it carries `instance_id`. The
    /// terminal status is recorded by the store; the table keeps only live
    /// rows.
    pub fn release(&mut self, repo_id: &str, instance_id: &str, status: &str)
        requires
            old(self).wf(),
        ensures
            final(self).wf(),
            !old(self).spec_has(repo_id@) ==> final(self).rows@ == old(self).rows@,
            old(self).spec_has(repo_id@) ==> {
                let i = old(self).spec_index_of(repo_id@);
                if old(self).rows@[i].instance_id@ == instance_id@ {
                    final(self).rows@ == old(self).rows@.remove(i)
                } else {
                    final(self).rows@ == old(self).rows@
                }
            },
    {
        match self.find(repo_id) {
            None => {},
            Some(i) => {
                proof {
                    let k = self.spec_index_of(repo_id@);
                    assert(self.rows@[k].repo_id@ == repo_id@);
                    assert(k == i as int);
                }
                if string_eq_str(&self.rows[i].instance_id, instance_id) {
                    let ghost pre = self.rows@;
                    self.rows.remove(i);
                    proof {
                        lemma_lock_remove_map(pre, i as int);
                    }
                }
            },
        }
    }

    /// Extends the lease on `repo_id` by `additional_seconds`, but only
    /// while the caller still owns an unexpired lock; returns whether it
    /// did.
    pub fn extend(
        &mut self,
        repo_id: &str,
        instance_id: &str,
        additional_seconds: u64,
        now_ms: u64,
    ) -> (extended: bool)
        requires
            old(self).wf(),
        ensures
            final(self).wf(),
            extended <==> (old(self).spec_has(repo_id@) && {
                let i = old(self).spec_index_of(repo_id@);
                old(self).rows@[i].instance_id@ == instance_id@ && spec_lock_active(
                    old(self).rows@[i],
                    now_ms,
                )
            }),
            !extended ==> final(self).rows@ == old(self).rows@,
            extended ==> {
                let i = old(self).spec_index_of(repo_id@);
                final(self).rows@ == old(self).rows@.update(
                    i,
                    (ProcessingLock {
                        expires_at_ms: sat_add_u64(
                            old(self).rows@[i].expires_at_ms,
                            sat_mul_1000(additional_seconds),
                        ),
                        ..old(self).rows@[i]
                    }),
                )
            },
    {
        match self.find(repo_id) {
            None => false,
            Some(i) => {
                proof {
                    let k = self.spec_index_of(repo_id@);
                    assert(self.rows@[k].repo_id@ == repo_id@);
                    assert(k == i as int);
                }
                if !string_eq_str(&self.rows[i].instance_id, instance_id) {
                    return false;
                }
                if self.rows[i].expires_at_ms <= now_ms {
                    return false;
                }
                let extra_ms: u64 = if additional_seconds <= u64::MAX / 1000 {
                    additional_seconds * 1000
                } else {
                    u64::MAX
                };
                let current = self.rows[i].expires_at_ms;
                self.rows[i].expires_at_ms = if current <= u64::MAX - extra_ms {
                    current + extra_ms
                } else {
                    u64::MAX
                };
                proof {
                    assert(final(self).rows@ =~= old(self).rows@.update(
                        i as int,
                        final(self).rows@[i as int],
                    ));
                }
                true
            },
        }
    }

    /// Deletes every expired row.
    pub fn cleanup_expired(&mut self, now_ms: u64)
        requires
            old(self).wf(),
        ensures
            final(self).wf(),
            final(self).rows@ == spec_retain_active(old(self).rows@, now_ms),
    {
        let ghost orig = self.rows@;
        let mut i: usize = 0;
        let ghost k: int = 0;
        while i < self.rows.len()
            invariant
                self.wf(),
                0 <= k <= orig.len(),
                i <= self.rows@.len(),
                self.rows@ =~= spec_retain_active(orig.subrange(0, k), now_ms) + orig.subrange(
                    k,
                    orig.len() as int,
                ),
                i as int == spec_retain_active(orig.subrange(0, k), now_ms).len(),
            decreases orig.len() - k,
        {
            proof {
                assert(self.rows@[i as int] == orig[k]);
                assert(orig.subrange(0, k + 1).drop_last() =~= orig.subrange(0, k));
                assert(orig.subrange(0, k + 1).last() == orig[k]);
            }
            if self.rows[i].expires_at_ms <= now_ms {
                let ghost pre = self.rows@;
                self.rows.remove(i);
                proof {
                    lemma_lock_remove_map(pre, i as int);
                    assert(self.rows@ =~= spec_retain_active(orig.subrange(0, k + 1), now_ms)
                        + orig.subrange(k + 1, orig.len() as int));
                }
            } else {
                i = i + 1;
                proof {
                    assert(self.rows@ =~= spec_retain_active(orig.subrange(0, k + 1), now_ms)
                        + orig.subrange(k + 1, orig.len() as int));
                }
            }
            proof {
                k = k + 1;
            }
        }
        proof {
            assert(orig.subrange(0, k) =~= orig);
            assert(orig.subrange(k, orig.len() as int) =~= Seq::<ProcessingLock>::empty());
            assert(self.rows@ =~= spec_retain_active(orig, now_ms));
        }
    }

    /// How many unexpired locks `instance_id` holds.
    pub fn get_active_locks_count(&self, instance_id: &str, now_ms: u64) -> (r: usize)
        ensures
            r == spec_count_active_of(self.rows@, instance_id@, now_ms),
    {
        proof {
            lemma_count_active_bound(self.rows@, instance_id@, now_ms);
        }
        let mut count: usize = 0;
        let mut i: usize = 0;
        while i < self.rows.len()
            invariant
                i <= self.rows@.len(),
                count == spec_count_active_of(self.rows@.subrange(0, i as int), instance_id@, now_ms),
                count <= i,
            decreases self.rows@.len() - i,
        {
            proof {
                assert(self.rows@.subrange(0, i + 1).drop_last() =~= self.rows@.subrange(
                    0,
                    i as int,
                ));
                assert(self.rows@.subrange(0, i + 1).last() == self.rows@[i as int]);
                lemma_count_active_bound(self.rows@.subrange(0, i as int), instance_id@, now_ms);
            }
            if string_eq_str(&self.rows[i].instance_id, instance_id) && self.rows[i].expires_at_ms
                > now_ms {
                count = count + 1;
            }
            i = i + 1;
        }
        proof {
            assert(self.rows@.subrange(0, i as int) =~= self.rows@);
        }
        count
    }

    /// At most one instance holds an unexpired lock on any record: the
    /// table has at most one row per record at all, so two rows that both
    /// bind the same record at the same time must be the same row.
    pub proof fn lemma_at_most_one_holder(t: Self, repo_id: Seq<char>, now_ms: u64)
        requires
            t.wf(),
        ensures
            forall|i: int, j: int|
                (0 <= i < t.rows@.len() && 0 <= j < t.rows@.len() && (#[trigger] t.rows@[i]).repo_id@
                    == repo_id && (#[trigger] t.rows@[j]).repo_id@ == repo_id && spec_lock_active(
                    t.rows@[i],
                    now_ms,
                ) && spec_lock_active(t.rows@[j], now_ms)) ==> i == j,
    {
    }
}

/// Seconds to milliseconds, saturating.
pub open spec fn sat_mul_1000(seconds: u64) -> u64 {
    if seconds * 1000 > u64::MAX {
        u64::MAX
    } else {
        (seconds * 1000) as u64
    }
}

/// The rows still unexpired at `now_ms`, in order.
pub open spec fn spec_retain_active(s: Seq<ProcessingLock>, now_ms: u64) -> Seq<ProcessingLock>
    decreases s.len(),
{
    if s.len() == 0 {
        Seq::empty()
    } else {
        let head = spec_retain_active(s.drop_last(), now_ms);
        if spec_lock_active(s.last(), now_ms) {
            head.push(s.last())
        } else {
            head
        }
    }
}

/// How many rows bind `instance_id` and are unexpired at `now_ms`.
pub open spec fn spec_count_active_of(s: Seq<ProcessingLock>, instance_id: Seq<char>, now_ms: u64) -> int
    decreases s.len(),
{
    if s.len() == 0 {
        0
    } else {
        spec_count_active_of(s.drop_last(), instance_id, now_ms) + if s.last().instance_id@
            == instance_id && spec_lock_active(s.last(), now_ms) {
            1int
        } else {
            0int
        }
    }
}

proof fn lemma_count_active_bound(s: Seq<ProcessingLock>, instance_id: Seq<char>, now_ms: u64)
    ensures
        0 <= spec_count_active_of(s, instance_id, now_ms) <= s.len(),
    decreases s.len(),
{
    if s.len() > 0 {
        lemma_count_active_bound(s.drop_last(), instance_id, now_ms);
    }
}

/// Index mapping of `Seq::remove` on lock rows.
proof fn lemma_lock_remove_map(s: Seq<ProcessingLock>, i: int)
    requires
        0 <= i < s.len(),
    ensures
        s.remove(i).len() == s.len() - 1,
        forall|j: int| 0 <= j < i ==> #[trigger] s.remove(i)[j] == s[j],
        forall|j: int| i <= j < s.len() - 1 ==> #[trigger] s.remove(i)[j] == s[j + 1],
{
    assert(s.remove(i) =~= s.subrange(0, i) + s.subrange(i + 1, s.len() as int));
}

} // verus!
