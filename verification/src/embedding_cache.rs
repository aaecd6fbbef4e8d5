//! In-process LRU cache for embeddings, with a uniform time-to-live.
//!
//! Entries are kept in recency order: the least recently used entry stands
//! first, the most recently used last. A hit moves the entry to the end and
//! refreshes its access time; an insert into a full cache evicts the first
//! entry, which by the recency invariant is exactly the one with the
//! earliest access time. An entry older than the time-to-live is evicted on
//! lookup and reported as a miss.
//!
//! Embedding vectors are stored as the bit patterns of their 32-bit float
//! elements, which pins cache behaviour without any floating-point
//! arithmetic.

use vstd::prelude::*;
use vstd::string::StringExecFns;

use crate::strutil::string_eq_str;
use crate::timing::elapsed_ms;
use crate::timing::sat_add;
use crate::timing::sat_add_u64;
use crate::timing::sat_inc_u64;
use crate::timing::spec_elapsed_ms;

verus! {

/// Cache entry containing the embedding bits and bookkeeping metadata.
pub struct CacheEntry {
    pub key: String,
    /// Bit patterns of the vector's 32-bit float elements.
    pub embedding: Vec<u32>,
    pub model: String,
    pub created_at_ms: u64,
    pub last_accessed_ms: u64,
    pub access_count: u64,
}

/// An entry is live at `now_ms` while no more than `ttl_ms` milliseconds
/// have passed since it was created.
pub open spec fn spec_live(e: CacheEntry, now_ms: u64, ttl_ms: u64) -> bool {
    spec_elapsed_ms(now_ms, e.created_at_ms) <= ttl_ms
}

/// LRU cache for embeddings with TTL support. Operations take the current
/// clock reading; readings must not go backwards between operations.
pub struct EmbeddingCache {
    /// Recency order: least recently used first, most recently used last.
    pub entries: Vec<CacheEntry>,
    pub max_size: usize,
    pub ttl_ms: u64,
    /// The latest clock reading an operation has seen.
    pub clock_ms: u64,
}

impl EmbeddingCache {
    pub open spec fn spec_has(&self, key: Seq<char>) -> bool {
        exists|i: int| 0 <= i < self.entries@.len() && (#[trigger] self.entries@[i]).key@ == key
    }

    /// Index of the entry for `key`; meaningful only when `spec_has`.
    pub open spec fn spec_index_of(&self, key: Seq<char>) -> int {
        choose|i: int| 0 <= i < self.entries@.len() && (#[trigger] self.entries@[i]).key@ == key
    }

    /// The cache never exceeds its capacity, keys are unique, entries stand
    /// in nondecreasing order of access time, and no stored time runs ahead
    /// of the clock.
    pub open spec fn wf(&self) -> bool {
        &&& self.max_size >= 1
        &&& self.entries@.len() <= self.max_size
        &&& forall|i: int, j: int|
            0 <= i < j < self.entries@.len() ==> (#[trigger] self.entries@[i]).key@ != (
            #[trigger] self.entries@[j]).key@
        &&& forall|i: int, j: int|
            0 <= i < j < self.entries@.len() ==> (#[trigger] self.entries@[i]).last_accessed_ms
                <= (#[trigger] self.entries@[j]).last_accessed_ms
        &&& forall|i: int|
            0 <= i < self.entries@.len() ==> entry_bounds_ok(
                #[trigger] self.entries@[i],
                self.clock_ms,
            )
    }

    /// A fresh cache for `max_size` entries whose entries live for
    /// `ttl_seconds` seconds.
    pub fn new(max_size: usize, ttl_seconds: u64) -> (r: Self)
        requires
            max_size >= 1,
        ensures
            r.entries@.len() == 0,
            r.max_size == max_size,
            r.ttl_ms == Self::spec_ttl_ms(ttl_seconds),
            r.clock_ms == 0,
            r.wf(),
    {
        let ttl_ms: u64 = if ttl_seconds <= u64::MAX / 1000 {
            ttl_seconds * 1000
        } else {
            u64::MAX
        };
        EmbeddingCache { entries: Vec::new(), max_size, ttl_ms, clock_ms: 0 }
    }

    /// The time-to-live in milliseconds, saturating for absurdly large
    /// second counts.
    pub open spec fn spec_ttl_ms(ttl_seconds: u64) -> u64 {
        if ttl_seconds * 1000 > u64::MAX {
            u64::MAX
        } else {
            (ttl_seconds * 1000) as u64
        }
    }

    /// Generate a cache key from repository name and model name.
    pub fn cache_key(repo_full_name: &str, model: &str) -> (r: String)
        ensures
            r@ == repo_full_name@ + ":"@ + model@,
    {
        let mut s = repo_full_name.to_owned();
        s.append(":");
        s.append(model);
        proof {
            assert(s@ =~= repo_full_name@ + ":"@ + model@);
        }
        s
    }

    /// Finds the stored index for `key`.
    fn find(&self, key: &str) -> (r: Option<usize>)
        ensures
            match r {
                Some(i) => i < self.entries@.len() && self.entries@[i as int].key@ == key@
                    && self.spec_has(key@),
                None => !self.spec_has(key@),
            },
    {
        let mut i: usize = 0;
        while i < self.entries.len()
            invariant
                i <= self.entries@.len(),
                forall|j: int| 0 <= j < i ==> (#[trigger] self.entries@[j]).key@ != key@,
            decreases self.entries@.len() - i,
        {
            if string_eq_str(&self.entries[i].key, key) {
                return Some(i);
            }
            i = i + 1;
        }
        None
    }

    /// Get an embedding from cache if it exists and has not expired.
    ///
    /// A key whose entry was created more than the time-to-live before
    /// `now_ms` is a miss, and its entry is removed on the spot. A hit moves
    /// the entry to the most recently used end, with its access time set to
    /// `now_ms` and its hit counter incremented.
    pub fn get(&mut self, key: &str, now_ms: u64) -> (r: Option<(Vec<u32>, String)>)
        requires
            old(self).wf(),
            now_ms >= old(self).clock_ms,
        ensures
            final(self).wf(),
            final(self).max_size == old(self).max_size,
            final(self).ttl_ms == old(self).ttl_ms,
            final(self).clock_ms == now_ms,
            !old(self).spec_has(key@) ==> r is None && final(self).entries@ == old(self).entries@,
            old(self).spec_has(key@) ==> {
                let i = old(self).spec_index_of(key@);
                let e = old(self).entries@[i];
                if spec_live(e, now_ms, old(self).ttl_ms) {
                    &&& r is Some
                    &&& (r->Some_0).0@ == e.embedding@
                    &&& (r->Some_0).1@ == e.model@
                    &&& final(self).entries@ == old(self).entries@.remove(i).push(
                        (CacheEntry {
                            key: e.key,
                            embedding: e.embedding,
                            model: e.model,
                            created_at_ms: e.created_at_ms,
                            last_accessed_ms: now_ms,
                            access_count: sat_inc_u64(e.access_count),
                        }),
                    )
                } else {
                    &&& r is None
                    &&& final(self).entries@ == old(self).entries@.remove(i)
                }
            },
    {
        match self.find(key) {
            None => {
                self.clock_ms = now_ms;
                None
            },
            Some(i) => {
                proof {
                    let k = self.spec_index_of(key@);
                    assert(self.entries@[k].key@ == key@);
                    assert(k == i as int);
                }
                let created = self.entries[i].created_at_ms;
                if elapsed_ms(now_ms, created) > self.ttl_ms {
                    let ghost pre = self.entries@;
                    self.entries.remove(i);
                    self.clock_ms = now_ms;
                    proof {
                        lemma_remove_index_map(pre, i as int);
                        let shorter = pre.remove(i as int);
                        assert forall|a: int|
                            0 <= a < self.entries@.len() implies entry_bounds_ok(
                            #[trigger] self.entries@[a],
                            self.clock_ms,
                        ) by {
                            assert(self.entries@[a] == shorter[a]);
                        }
                    }
                    None
                } else {
                    let bits = copy_bits(&self.entries[i].embedding);
                    let model_copy = self.entries[i].model.clone();
                    let ghost pre = self.entries@;
                    let e = self.entries.remove(i);
                    let count = if e.access_count == u64::MAX {
                        e.access_count
                    } else {
                        e.access_count + 1
                    };
                    self.entries.push(
                        CacheEntry {
                            key: e.key,
                            embedding: e.embedding,
                            model: e.model,
                            created_at_ms: e.created_at_ms,
                            last_accessed_ms: now_ms,
                            access_count: count,
                        },
                    );
                    self.clock_ms = now_ms;
                    proof {
                        lemma_remove_index_map(pre, i as int);
                        let shorter = pre.remove(i as int);
                        assert(e == pre[i as int]);
                        assert forall|a: int, b: int|
                            0 <= a < b < self.entries@.len() implies (
                        #[trigger] self.entries@[a]).key@ != (
                        #[trigger] self.entries@[b]).key@ && self.entries@[a].last_accessed_ms
                            <= self.entries@[b].last_accessed_ms by {
                            assert(self.entries@[a] == shorter[a]);
                            if b < shorter.len() {
                                assert(self.entries@[b] == shorter[b]);
                            } else {
                                assert(self.entries@[b].key@ == pre[i as int].key@);
                                assert(self.entries@[b].last_accessed_ms == now_ms);
                            }
                        }
                        assert forall|a: int|
                            0 <= a < self.entries@.len() implies entry_bounds_ok(
                            #[trigger] self.entries@[a],
                            self.clock_ms,
                        ) by {
                            if a < shorter.len() {
                                assert(self.entries@[a] == shorter[a]);
                            } else {
                                assert(self.entries@[a].created_at_ms == pre[i as int].created_at_ms);
                            }
                        }
                    }
                    Some((bits, model_copy))
                }
            },
        }
    }

    /// Put an embedding into the cache.
    ///
    /// An existing entry under the same key is replaced. When the cache is
    /// full, the least recently used entry — the first in recency order —
    /// is evicted to make room. The new entry enters at the most recently
    /// used end with its creation and access time set to `now_ms`.
    pub fn put(&mut self, key: String, embedding: Vec<u32>, model: String, now_ms: u64)
        requires
            old(self).wf(),
            now_ms >= old(self).clock_ms,
        ensures
            final(self).wf(),
            final(self).max_size == old(self).max_size,
            final(self).ttl_ms == old(self).ttl_ms,
            final(self).clock_ms == now_ms,
            final(self).entries@ == Self::spec_after_put(*old(self), key, embedding, model, now_ms),
            final(self).spec_has(key@),
    {
        let ghost orig = *old(self);
        match self.find(key.as_str()) {
            Some(i) => {
                proof {
                    let k = self.spec_index_of(key@);
                    assert(self.entries@[k].key@ == key@);
                    assert(k == i as int);
                }
                let ghost pre = self.entries@;
                self.entries.remove(i);
                proof {
                    lemma_remove_index_map(pre, i as int);
                    assert forall|a: int|
                        0 <= a < self.entries@.len() implies (#[trigger] self.entries@[a]).key@
                        != key@ by {
                        if a < i as int {
                            assert(self.entries@[a] == pre[a]);
                        } else {
                            assert(self.entries@[a] == pre[a + 1]);
                        }
                    }
                }
            },
            None => {},
        }
        if self.entries.len() >= self.max_size {
            let ghost pre = self.entries@;
            self.entries.remove(0);
            proof {
                lemma_remove_index_map(pre, 0);
            }
        }
        let ghost base = self.entries@;
        self.entries.push(
            CacheEntry {
                key,
                embedding,
                model,
                created_at_ms: now_ms,
                last_accessed_ms: now_ms,
                access_count: 0,
            },
        );
        self.clock_ms = now_ms;
        proof {
            assert forall|a: int, b: int|
                0 <= a < b < self.entries@.len() implies (#[trigger] self.entries@[a]).key@ != (
            #[trigger] self.entries@[b]).key@ && self.entries@[a].last_accessed_ms
                <= self.entries@[b].last_accessed_ms by {
                assert(self.entries@[a] == base[a]);
                if b < base.len() {
                    assert(self.entries@[b] == base[b]);
                }
            }
            assert forall|a: int|
                0 <= a < self.entries@.len() implies entry_bounds_ok(
                #[trigger] self.entries@[a],
                self.clock_ms,
            ) by {
                if a < base.len() {
                    assert(self.entries@[a] == base[a]);
                }
            }
            assert(self.entries@.last().key@ == key@);
            assert(final(self).entries@ =~= Self::spec_after_put(orig, key, embedding, model, now_ms));
        }
    }

    /// The entry sequence after a put: any entry under the same key is
    /// dropped, the first entry is evicted when the cache is full, and the
    /// fresh entry is appended at the most recently used end.
    pub open spec fn spec_after_put(
        pre: Self,
        key: String,
        embedding: Vec<u32>,
        model: String,
        now_ms: u64,
    ) -> Seq<CacheEntry> {
        let without = if pre.spec_has(key@) {
            pre.entries@.remove(pre.spec_index_of(key@))
        } else {
            pre.entries@
        };
        let trimmed = if without.len() >= pre.max_size {
            without.remove(0)
        } else {
            without
        };
        trimmed.push(
            (CacheEntry {
                key,
                embedding,
                model,
                created_at_ms: now_ms,
                last_accessed_ms: now_ms,
                access_count: 0,
            }),
        )
    }

    /// The least recently used entry stands first: in a well-formed cache
    /// no stored entry has an earlier access time than the first one, so an
    /// insert into a full cache evicts exactly the entry with the earliest
    /// access time.
    pub proof fn lemma_lru_eviction(c: Self)
        requires
            c.wf(),
            c.entries@.len() > 0,
        ensures
            forall|i: int|
                0 <= i < c.entries@.len() ==> c.entries@[0].last_accessed_ms <= (
                #[trigger] c.entries@[i]).last_accessed_ms,
    {
    }

    /// Remove expired entries from the cache.
    pub fn evict_expired(&mut self, now_ms: u64)
        requires
            old(self).wf(),
            now_ms >= old(self).clock_ms,
        ensures
            final(self).wf(),
            final(self).max_size == old(self).max_size,
            final(self).ttl_ms == old(self).ttl_ms,
            final(self).clock_ms == now_ms,
            final(self).entries@ == Self::spec_retain_live(
                old(self).entries@,
                now_ms,
                old(self).ttl_ms,
            ),
    {
        let ghost orig = self.entries@;
        let ghost ttl = self.ttl_ms;
        let mut i: usize = 0;
        let ghost k: int = 0;
        while i < self.entries.len()
            invariant
                self.wf(),
                now_ms >= self.clock_ms,
                self.max_size == old(self).max_size,
                self.ttl_ms == old(self).ttl_ms,
                self.clock_ms == old(self).clock_ms,
                ttl == self.ttl_ms,
                0 <= k <= orig.len(),
                i <= self.entries@.len(),
                self.entries@ =~= Self::spec_retain_live(orig.subrange(0, k), now_ms, ttl)
                    + orig.subrange(k, orig.len() as int),
                i as int == Self::spec_retain_live(orig.subrange(0, k), now_ms, ttl).len(),
            decreases orig.len() - k,
        {
            proof {
                assert(self.entries@[i as int] == orig[k]);
                assert(orig.subrange(0, k + 1).drop_last() =~= orig.subrange(0, k));
                assert(orig.subrange(0, k + 1).last() == orig[k]);
            }
            let created = self.entries[i].created_at_ms;
            if elapsed_ms(now_ms, created) > self.ttl_ms {
                let ghost pre = self.entries@;
                self.entries.remove(i);
                proof {
                    lemma_remove_index_map(pre, i as int);
                    let shorter = pre.remove(i as int);
                    assert forall|a: int|
                        0 <= a < self.entries@.len() implies entry_bounds_ok(
                        #[trigger] self.entries@[a],
                        self.clock_ms,
                    ) by {
                        assert(self.entries@[a] == shorter[a]);
                    }
                    assert(!spec_live(orig[k], now_ms, ttl));
                    assert(self.entries@ =~= Self::spec_retain_live(
                        orig.subrange(0, k + 1),
                        now_ms,
                        ttl,
                    ) + orig.subrange(k + 1, orig.len() as int));
                }
            } else {
                i = i + 1;
                proof {
                    assert(spec_live(orig[k], now_ms, ttl));
                    assert(self.entries@ =~= Self::spec_retain_live(
                        orig.subrange(0, k + 1),
                        now_ms,
                        ttl,
                    ) + orig.subrange(k + 1, orig.len() as int));
                }
            }
            proof {
                k = k + 1;
            }
        }
        self.clock_ms = now_ms;
        proof {
            assert(orig.subrange(0, k) =~= orig);
            assert(orig.subrange(k, orig.len() as int) =~= Seq::<CacheEntry>::empty());
            assert(self.entries@ =~= Self::spec_retain_live(orig, now_ms, ttl));
        }
    }

    /// The subsequence of `s` whose entries are still live at `now_ms`.
    pub open spec fn spec_retain_live(s: Seq<CacheEntry>, now_ms: u64, ttl_ms: u64) -> Seq<
        CacheEntry,
    >
        decreases s.len(),
    {
        if s.len() == 0 {
            Seq::empty()
        } else {
            let head = Self::spec_retain_live(s.drop_last(), now_ms, ttl_ms);
            if spec_live(s.last(), now_ms, ttl_ms) {
                head.push(s.last())
            } else {
                head
            }
        }
    }

    /// Clear all entries from the cache.
    pub fn clear(&mut self)
        requires
            old(self).wf(),
        ensures
            final(self).wf(),
            final(self).entries@.len() == 0,
            final(self).max_size == old(self).max_size,
            final(self).ttl_ms == old(self).ttl_ms,
            final(self).clock_ms == old(self).clock_ms,
    {
        self.entries.clear();
    }

    /// Total bytes held by the stored embedding vectors, saturating.
    pub open spec fn spec_memory_bytes(s: Seq<CacheEntry>) -> u64
        decreases s.len(),
    {
        if s.len() == 0 {
            0
        } else {
            sat_add_u64(Self::spec_memory_bytes(s.drop_last()), Self::spec_entry_bytes(s.last()))
        }
    }

    /// Bytes of one stored vector: four per 32-bit element, saturating.
    pub open spec fn spec_entry_bytes(e: CacheEntry) -> u64 {
        if e.embedding@.len() * 4 > u64::MAX {
            u64::MAX
        } else {
            (e.embedding@.len() * 4) as u64
        }
    }

    /// Total hits recorded across the stored entries, saturating.
    pub open spec fn spec_hit_count(s: Seq<CacheEntry>) -> u64
        decreases s.len(),
    {
        if s.len() == 0 {
            0
        } else {
            sat_add_u64(Self::spec_hit_count(s.drop_last()), s.last().access_count)
        }
    }

    /// Get cache statistics.
    pub fn stats(&self) -> (r: CacheStats)
        ensures
            r.total_entries == self.entries@.len(),
            r.total_memory_bytes == Self::spec_memory_bytes(self.entries@),
            r.hit_count == Self::spec_hit_count(self.entries@),
            r.max_size == self.max_size,
            r.ttl_seconds == self.ttl_ms / 1000,
    {
        let mut memory: u64 = 0;
        let mut hits: u64 = 0;
        let mut i: usize = 0;
        while i < self.entries.len()
            invariant
                i <= self.entries@.len(),
                memory == Self::spec_memory_bytes(self.entries@.subrange(0, i as int)),
                hits == Self::spec_hit_count(self.entries@.subrange(0, i as int)),
            decreases self.entries@.len() - i,
        {
            proof {
                assert(self.entries@.subrange(0, i + 1).drop_last() =~= self.entries@.subrange(
                    0,
                    i as int,
                ));
                assert(self.entries@.subrange(0, i + 1).last() == self.entries@[i as int]);
            }
            let len = self.entries[i].embedding.len();
            let bytes: u64 = if (len as u64) <= u64::MAX / 4 {
                (len as u64) * 4
            } else {
                u64::MAX
            };
            memory = sat_add(memory, bytes);
            hits = sat_add(hits, self.entries[i].access_count);
            i = i + 1;
        }
        proof {
            assert(self.entries@.subrange(0, i as int) =~= self.entries@);
        }
        CacheStats {
            total_entries: self.entries.len(),
            total_memory_bytes: memory,
            hit_count: hits,
            max_size: self.max_size,
            ttl_seconds: self.ttl_ms / 1000,
        }
    }
}

/// Creation time at or before access time, which is at or before the clock.
pub open spec fn entry_bounds_ok(e: CacheEntry, clock_ms: u64) -> bool {
    e.created_at_ms <= e.last_accessed_ms && e.last_accessed_ms <= clock_ms
}

/// Index mapping of `Seq::remove`: entries before the removed index stay,
/// later entries shift down by one.
proof fn lemma_remove_index_map(s: Seq<CacheEntry>, i: int)
    requires
        0 <= i < s.len(),
    ensures
        s.remove(i).len() == s.len() - 1,
        forall|j: int| 0 <= j < i ==> #[trigger] s.remove(i)[j] == s[j],
        forall|j: int| i <= j < s.len() - 1 ==> #[trigger] s.remove(i)[j] == s[j + 1],
{
    assert(s.remove(i) =~= s.subrange(0, i) + s.subrange(i + 1, s.len() as int));
}

/// Cache statistics.
#[derive(Clone, Copy, Debug)]
pub struct CacheStats {
    pub total_entries: usize,
    pub total_memory_bytes: u64,
    pub hit_count: u64,
    pub max_size: usize,
    pub ttl_seconds: u64,
}

impl Default for EmbeddingCache {
    /// The production default: ten thousand entries kept for an hour.
    fn default() -> (r: Self)
        ensures
            r.entries@.len() == 0,
            r.max_size == 10_000,
            r.ttl_ms == 3_600_000,
            r.clock_ms == 0,
            r.wf(),
    {
        EmbeddingCache::new(10_000, 3600)
    }
}

/// Copies a vector of embedding bits.
fn copy_bits(v: &Vec<u32>) -> (r: Vec<u32>)
    ensures
        r@ == v@,
{
    let mut out: Vec<u32> = Vec::new();
    let mut i: usize = 0;
    while i < v.len()
        invariant
            i <= v@.len(),
            out@ == v@.subrange(0, i as int),
        decreases v@.len() - i,
    {
        out.push(v[i]);
        proof {
            assert(out@ =~= v@.subrange(0, i + 1 as int));
        }
        i = i + 1;
    }
    proof {
        assert(out@ =~= v@);
    }
    out
}

} // verus!
