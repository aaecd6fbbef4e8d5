use embed_star::deduplication::LockTable;
use embed_star::error::EmbedError;
use embed_star::metrics::Metrics;
use embed_star::models::{Repo, RepoOwner};
use embed_star::process_batch::{
    batch_result_from_rows, batch_result_from_transaction, build_batch_script,
    decide_record_outcome, plan_batch_update, release_status_of, worker_step,
    BatchUpdateResult, EmbeddingUpdate, RecordOutcome, WorkerAction, WorkerEvent,
};

fn bits(values: &[f32]) -> Vec<u32> {
    values.iter().map(|v| v.to_bits()).collect()
}

fn pending_repo(id: &str, full_name: &str) -> Repo {
    Repo {
        id: id.to_string(),
        github_id: 1,
        name: "r".to_string(),
        full_name: full_name.to_string(),
        description: Some("hello".to_string()),
        url: "https://example.invalid/r".to_string(),
        stars: 1,
        language: Some("Rust".to_string()),
        owner: RepoOwner { login: "a".to_string(), avatar_url: String::new() },
        is_private: false,
        created_at_ms: 1_000,
        updated_at_ms: 2_000,
        embedding: None,
        embedding_generated_at_ms: None,
    }
}

#[test]
fn test_empty_batch_update() {
    // An empty batch produces no script and an all-zero result.
    let updates: Vec<EmbeddingUpdate> = vec![];
    assert!(plan_batch_update(&updates).is_none());
    let result = BatchUpdateResult::default();
    assert_eq!(result.total, 0);
    assert_eq!(result.successful, 0);
    assert_eq!(result.failed, 0);
}

#[test]
fn test_batch_script_shape() {
    let script = build_batch_script(2);
    assert_eq!(
        script,
        "BEGIN TRANSACTION;\n\
         UPDATE $repo_0 SET embedding = $embedding_0, embedding_generated_at = time::now();\n\
         UPDATE $repo_1 SET embedding = $embedding_1, embedding_generated_at = time::now();\n\
         COMMIT TRANSACTION;"
    );

    let updates = vec![
        EmbeddingUpdate { repo_id: "repo:a".to_string(), embedding: bits(&[0.1]) },
        EmbeddingUpdate { repo_id: "repo:b".to_string(), embedding: bits(&[0.2]) },
    ];
    assert_eq!(plan_batch_update(&updates).unwrap(), script);
}

#[test]
fn test_batch_result_tallies() {
    let from_tx = batch_result_from_transaction(3, 25);
    assert_eq!(from_tx.total, 3);
    assert_eq!(from_tx.successful, 3);
    assert_eq!(from_tx.failed, 0);
    assert_eq!(from_tx.duration_ms, 25);

    let from_rows = batch_result_from_rows(&vec![true, false, true, false, false], 40);
    assert_eq!(from_rows.total, 5);
    assert_eq!(from_rows.successful, 2);
    assert_eq!(from_rows.failed, 3);
    assert_eq!(from_rows.duration_ms, 40);
}

#[test]
fn test_lifecycle_order_of_gates() {
    let validator = None;
    // Lock not acquired: skipped silently, nothing released.
    let o = decide_record_outcome(
        "repo:r",
        false,
        None,
        true,
        true,
        Ok(bits(&[0.1])),
        &validator,
        0,
        0,
    );
    assert!(matches!(o, RecordOutcome::SkippedLockHeld));
    assert!(release_status_of(&o).is_none());

    // Cache hit short-circuits everything after the lock.
    let o = decide_record_outcome(
        "repo:r",
        true,
        Some(bits(&[0.5])),
        false,
        false,
        Err(EmbedError::Http("unused".to_string())),
        &validator,
        0,
        0,
    );
    match &o {
        RecordOutcome::StagedFromCache(u) => {
            assert_eq!(u.repo_id, "repo:r");
            assert_eq!(u.embedding, bits(&[0.5]));
        }
        _ => panic!("cache hit should stage the cached vector"),
    }
    assert_eq!(release_status_of(&o).unwrap(), "completed");

    // Rate limiter refusal.
    let o = decide_record_outcome(
        "repo:r",
        true,
        None,
        false,
        true,
        Ok(bits(&[0.1])),
        &validator,
        0,
        0,
    );
    assert!(matches!(o, RecordOutcome::SkippedRateLimit));
    assert_eq!(release_status_of(&o).unwrap(), "failed");

    // Circuit breaker refusal surfaces as ServiceUnavailable.
    let o = decide_record_outcome(
        "repo:r",
        true,
        None,
        true,
        false,
        Ok(bits(&[0.1])),
        &validator,
        0,
        0,
    );
    assert!(matches!(
        o,
        RecordOutcome::SkippedCircuitOpen(EmbedError::ServiceUnavailable(_))
    ));

    // Embedder failure after its retries.
    let o = decide_record_outcome(
        "repo:r",
        true,
        None,
        true,
        true,
        Err(EmbedError::EmbeddingProvider("boom".to_string())),
        &validator,
        0,
        0,
    );
    assert!(matches!(o, RecordOutcome::Failed(EmbedError::EmbeddingProvider(_))));
}

#[test]
fn test_happy_path_single_record() {
    // One pending record; the embedder returns [0.1, 0.2, 0.3]; the
    // validator is disabled. After the batch: the embedding is stored, the
    // generation time is at or after the update time, and exactly one lock
    // row was created and then removed.
    let mut repo = pending_repo("repo:r1", "a/b");
    let mut locks = LockTable::new();
    let mut metrics = Metrics::new();
    let t0 = repo.updated_at_ms;

    let acquired = locks.try_acquire(&repo.id, "embed_star_test", t0 + 1, 300);
    assert!(acquired);
    assert_eq!(locks.rows.len(), 1);

    let vector = bits(&[0.1, 0.2, 0.3]);
    let outcome = decide_record_outcome(
        &repo.id,
        acquired,
        None,
        true,
        true,
        Ok(vector.clone()),
        &None,
        374_166, // magnitude 0.374 in millionths
        6_666_666_666, // variance of the three elements, in trillionths
    );
    let update = match outcome {
        RecordOutcome::Staged(u) => u,
        _ => panic!("the record should be staged"),
    };
    assert_eq!(update.repo_id, "repo:r1");
    assert_eq!(update.embedding, vector);

    let updates = vec![update];
    assert!(plan_batch_update(&updates).is_some());
    let write_time = t0 + 10;
    repo.apply_embedding_write(updates[0].embedding.clone(), write_time);
    metrics.record_embedding_generated("ollama", "test-model", 42);

    assert_eq!(repo.embedding, Some(vector));
    assert!(repo.embedding_generated_at_ms.unwrap() >= t0);
    assert!(!repo.needs_embedding());
    assert_eq!(metrics.embeddings_total, 1);

    locks.release(&repo.id, "embed_star_test", "completed");
    assert_eq!(locks.rows.len(), 0);
}

#[test]
fn test_graceful_shutdown_mid_batch() {
    // A worker with ten gathered records receives shutdown: it drains the
    // whole batch, then exits; no new batch is started.
    let batch: Vec<Repo> = (0..10)
        .map(|i| pending_repo(&format!("repo:r{}", i), &format!("o/r{}", i)))
        .collect();

    // The first record of the batch completes, then shutdown arrives.
    let action = worker_step(batch.len(), WorkerEvent::Shutdown);
    assert_eq!(action, WorkerAction::DrainThenExit);

    // Draining processes every record of the current batch.
    let mut processed = 0;
    for repo in &batch {
        let o = decide_record_outcome(
            &repo.id,
            true,
            None,
            true,
            true,
            Ok(bits(&[0.1, 0.2, 0.3])),
            &None,
            374_166,
            6_666_666_666,
        );
        assert!(matches!(o, RecordOutcome::Staged(_)));
        processed += 1;
    }
    assert_eq!(processed, 10);

    // With the batch drained, the worker exits and starts nothing new.
    assert_eq!(worker_step(0, WorkerEvent::Shutdown), WorkerAction::Exit);
    assert_eq!(worker_step(0, WorkerEvent::Tick), WorkerAction::Idle);
}
