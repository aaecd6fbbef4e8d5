//! Batch processing: the per-record lifecycle decision, the batched
//! write-back script, and the accounting of batch results.
//!
//! The workers run concurrently and in any order; what stands here is the
//! pure content of one worker's steps: which outcome each record reaches
//! given what its gates returned, what script a batch of updates compiles
//! to, how a batch result is tallied, and that a worker drains its batch
//! on shutdown.

use vstd::prelude::*;
use vstd::string::StringExecFns;

use crate::error::EmbedError;
use crate::strutil::decimal_string;
use crate::strutil::spec_decimal;
use crate::validation::spec_verdict;
use crate::validation::EmbeddingValidator;

verus! {

/// A single staged embedding update.
#[derive(Debug, Clone)]
pub struct EmbeddingUpdate {
    pub repo_id: String,
    /// Bit patterns of the vector's 32-bit float elements.
    pub embedding: Vec<u32>,
}

/// Result of a batch update operation.
#[derive(Debug, Clone, Copy)]
pub struct BatchUpdateResult {
    pub total: usize,
    pub successful: usize,
    pub failed: usize,
    pub duration_ms: u64,
}

impl Default for BatchUpdateResult {
    fn default() -> (r: Self)
        ensures
            r.total == 0,
            r.successful == 0,
            r.failed == 0,
            r.duration_ms == 0,
    {
        BatchUpdateResult { total: 0, successful: 0, failed: 0, duration_ms: 0 }
    }
}

/// The update statement for row `i` of a batch.
pub open spec fn spec_update_line(i: nat) -> Seq<char> {
    "UPDATE $repo_"@ + spec_decimal(i) + " SET embedding = $embedding_"@ + spec_decimal(i)
        + ", embedding_generated_at = time::now();\n"@
}

/// The update statements for rows `0 .. n`.
pub open spec fn spec_update_lines(n: nat) -> Seq<char>
    decreases n,
{
    if n == 0 {
        Seq::empty()
    } else {
        spec_update_lines((n - 1) as nat) + spec_update_line((n - 1) as nat)
    }
}

/// The whole transaction script for a batch of `n` updates.
pub open spec fn spec_batch_script(n: nat) -> Seq<char> {
    "BEGIN TRANSACTION;\n"@ + spec_update_lines(n) + "COMMIT TRANSACTION;"@
}

/// Builds the transaction script for a batch of `n` updates: one `UPDATE`
/// statement per row between `BEGIN` and `COMMIT`, with numbered
/// parameters for the record id and the vector.
pub fn build_batch_script(n: usize) -> (r: String)
    ensures
        r@ == spec_batch_script(n as nat),
{
    let mut body = "BEGIN TRANSACTION;\n".to_owned();
    let mut i: usize = 0;
    while i < n
        invariant
            i <= n,
            body@ == "BEGIN TRANSACTION;\n"@ + spec_update_lines(i as nat),
        decreases n - i,
    {
        body.append("UPDATE $repo_");
        let index = decimal_string(i as u64);
        body.append(index.as_str());
        body.append(" SET embedding = $embedding_");
        body.append(index.as_str());
        body.append(", embedding_generated_at = time::now();\n");
        proof {
            assert(body@ =~= "BEGIN TRANSACTION;\n"@ + spec_update_lines((i + 1) as nat));
        }
        i = i + 1;
    }
    body.append("COMMIT TRANSACTION;");
    proof {
        assert(body@ =~= spec_batch_script(n as nat));
    }
    body
}

/// Plans a batch write: an empty batch needs no script and must not touch
/// the store; a non-empty batch compiles to one transaction script over
/// all its updates.
pub fn plan_batch_update(updates: &Vec<EmbeddingUpdate>) -> (r: Option<String>)
    ensures
        r is None <==> updates@.len() == 0,
        r matches Some(script) ==> script@ == spec_batch_script(updates@.len()),
{
    if updates.len() == 0 {
        None
    } else {
        Some(build_batch_script(updates.len()))
    }
}

/// The result of a batch whose single transaction succeeded: every row
/// counts as successful.
pub fn batch_result_from_transaction(total: usize, duration_ms: u64) -> (r: BatchUpdateResult)
    ensures
        r.total == total,
        r.successful == total,
        r.failed == 0,
        r.duration_ms == duration_ms,
{
    BatchUpdateResult { total, successful: total, failed: 0, duration_ms }
}

/// How many of the per-row outcomes succeeded.
pub open spec fn spec_count_true(s: Seq<bool>) -> int
    decreases s.len(),
{
    if s.len() == 0 {
        0
    } else {
        spec_count_true(s.drop_last()) + if s.last() {
            1int
        } else {
            0int
        }
    }
}

/// The result of the per-row fallback after a failed transaction: each
/// row's own outcome is tallied.
pub fn batch_result_from_rows(outcomes: &Vec<bool>, duration_ms: u64) -> (r: BatchUpdateResult)
    ensures
        r.total == outcomes@.len(),
        r.successful == spec_count_true(outcomes@),
        r.failed == outcomes@.len() - spec_count_true(outcomes@),
        r.duration_ms == duration_ms,
{
    proof {
        lemma_count_true_bound(outcomes@);
    }
    let mut successful: usize = 0;
    let mut i: usize = 0;
    while i < outcomes.len()
        invariant
            i <= outcomes@.len(),
            successful == spec_count_true(outcomes@.subrange(0, i as int)),
            successful <= i,
        decreases outcomes@.len() - i,
    {
        proof {
            assert(outcomes@.subrange(0, i + 1).drop_last() =~= outcomes@.subrange(0, i as int));
            assert(outcomes@.subrange(0, i + 1).last() == outcomes@[i as int]);
        }
        if outcomes[i] {
            successful = successful + 1;
        }
        i = i + 1;
    }
    proof {
        assert(outcomes@.subrange(0, i as int) =~= outcomes@);
    }
    BatchUpdateResult {
        total: outcomes.len(),
        successful,
        failed: outcomes.len() - successful,
        duration_ms,
    }
}

proof fn lemma_count_true_bound(s: Seq<bool>)
    ensures
        0 <= spec_count_true(s) <= s.len(),
    decreases s.len(),
{
    if s.len() > 0 {
        lemma_count_true_bound(s.drop_last());
    }
}

/// How one record's lifecycle ended.
pub enum RecordOutcome {
    /// Another instance holds the lock: skip silently, release nothing.
    SkippedLockHeld,
    /// The cache already held a vector for this record and model: stage it
    /// without calling the provider.
    StagedFromCache(EmbeddingUpdate),
    /// Admission to the rate limiter failed: the record is skipped and its
    /// lease released as failed.
    SkippedRateLimit,
    /// The circuit breaker refused the call: the record is skipped with a
    /// `ServiceUnavailable` error and its lease released as failed.
    SkippedCircuitOpen(EmbedError),
    /// The embedder gave up: the lease is released as failed.
    Failed(EmbedError),
    /// The vector came back but the validator rejected it: the lease is
    /// released as failed and nothing is staged.
    FailedValidation(EmbedError),
    /// The vector passed: cache it and stage it for the batched write.
    Staged(EmbeddingUpdate),
}

/// Decides one record's outcome from what its gates returned, in lifecycle
/// order: lock, cache, rate limiter, circuit breaker, embedder, validator.
///
/// Later gate results are ignored whenever an earlier gate already decided
/// the record, so the surrounding task may skip evaluating them.
pub fn decide_record_outcome(
    repo_id: &str,
    lock_acquired: bool,
    cached: Option<Vec<u32>>,
    permit_ok: bool,
    breaker_allowed: bool,
    embed_outcome: Result<Vec<u32>, EmbedError>,
    validator: &Option<EmbeddingValidator>,
    magnitude_micros: u64,
    variance_picos: u64,
) -> (r: RecordOutcome)
    ensures
        !lock_acquired ==> r is SkippedLockHeld,
        lock_acquired ==> (cached matches Some(bits) ==> (r matches
            RecordOutcome::StagedFromCache(u) && u.repo_id@ == repo_id@ && u.embedding@ == bits@)),
        lock_acquired && cached is None && !permit_ok ==> r is SkippedRateLimit,
        lock_acquired && cached is None && permit_ok && !breaker_allowed ==> (r matches
            RecordOutcome::SkippedCircuitOpen(e) && e is ServiceUnavailable),
        lock_acquired && cached is None && permit_ok && breaker_allowed ==> match embed_outcome {
            Err(e) => r == RecordOutcome::Failed(e),
            Ok(bits) => match validator {
                None => (r matches RecordOutcome::Staged(u) && u.repo_id@ == repo_id@
                    && u.embedding@ == bits@),
                Some(v) => {
                    if spec_verdict(v.config, bits@, magnitude_micros, variance_picos) is None {
                        r matches RecordOutcome::Staged(u) && u.repo_id@ == repo_id@
                            && u.embedding@ == bits@
                    } else {
                        r matches RecordOutcome::FailedValidation(e) && (e is Validation
                            || e is InvalidDimension)
                    }
                },
            },
        },
{
    if !lock_acquired {
        return RecordOutcome::SkippedLockHeld;
    }
    match cached {
        Some(bits) => {
            return RecordOutcome::StagedFromCache(
                EmbeddingUpdate { repo_id: repo_id.to_owned(), embedding: bits },
            );
        },
        None => {},
    }
    if !permit_ok {
        return RecordOutcome::SkippedRateLimit;
    }
    if !breaker_allowed {
        return RecordOutcome::SkippedCircuitOpen(
            EmbedError::ServiceUnavailable("circuit breaker open".to_owned()),
        );
    }
    match embed_outcome {
        Err(e) => RecordOutcome::Failed(e),
        Ok(bits) => {
            match validator {
                None => RecordOutcome::Staged(
                    EmbeddingUpdate { repo_id: repo_id.to_owned(), embedding: bits },
                ),
                Some(v) => {
                    match v.validate(&bits, magnitude_micros, variance_picos, repo_id) {
                        Ok(()) => RecordOutcome::Staged(
                            EmbeddingUpdate { repo_id: repo_id.to_owned(), embedding: bits },
                        ),
                        Err(e) => RecordOutcome::FailedValidation(e),
                    }
                },
            }
        },
    }
}

/// The lease status a finished record releases with.
pub fn release_status_of(outcome: &RecordOutcome) -> (r: Option<&'static str>)
    ensures
        match outcome {
            RecordOutcome::SkippedLockHeld => r is None,
            RecordOutcome::StagedFromCache(_) => (r matches Some(s) && s@ == "completed"@),
            RecordOutcome::Staged(_) => (r matches Some(s) && s@ == "completed"@),
            _ => (r matches Some(s) && s@ == "failed"@),
        },
{
    match outcome {
        RecordOutcome::SkippedLockHeld => None,
        RecordOutcome::StagedFromCache(_) => Some("completed"),
        RecordOutcome::Staged(_) => Some("completed"),
        RecordOutcome::SkippedRateLimit => Some("failed"),
        RecordOutcome::SkippedCircuitOpen(_) => Some("failed"),
        RecordOutcome::Failed(_) => Some("failed"),
        RecordOutcome::FailedValidation(_) => Some("failed"),
    }
}

/// What wakes a worker.
pub enum WorkerEvent {
    /// The inter-batch timer fired.
    Tick,
    /// The shutdown broadcast arrived.
    Shutdown,
}

/// What the worker does next.
#[derive(PartialEq, Eq, Structural, Debug, Clone, Copy)]
pub enum WorkerAction {
    /// Process the records gathered so far and keep running.
    ProcessBatch,
    /// Nothing gathered: keep waiting.
    Idle,
    /// Process the records gathered so far, then exit; no new batch is
    /// started.
    DrainThenExit,
    /// Nothing gathered: exit at once.
    Exit,
}

/// The worker's reaction to an event: on a tick it processes whatever it
/// has gathered; on shutdown it drains its in-flight batch before exiting,
/// and never starts a new one.
pub fn worker_step(batch_len: usize, event: WorkerEvent) -> (r: WorkerAction)
    ensures
        event is Tick && batch_len > 0 ==> r == WorkerAction::ProcessBatch,
        event is Tick && batch_len == 0 ==> r == WorkerAction::Idle,
        event is Shutdown && batch_len > 0 ==> r == WorkerAction::DrainThenExit,
        event is Shutdown && batch_len == 0 ==> r == WorkerAction::Exit,
{
    match event {
        WorkerEvent::Tick => {
            if batch_len > 0 {
                WorkerAction::ProcessBatch
            } else {
                WorkerAction::Idle
            }
        },
        WorkerEvent::Shutdown => {
            if batch_len > 0 {
                WorkerAction::DrainThenExit
            } else {
                WorkerAction::Exit
            }
        },
    }
}

} // verus!
