use embed_star::deduplication::{DeduplicationManager, LockTable, ProcessingLock};

#[test]
fn test_instance_id_generation() {
    // Instance ids are unique and carry the fixed prefix.
    let id1 = DeduplicationManager::new().instance_id;
    let id2 = DeduplicationManager::new().instance_id;

    assert!(id1.starts_with("embed_star_"));
    assert!(id2.starts_with("embed_star_"));
    assert_ne!(id1, id2);
    assert_eq!(id1.len(), 47);
}

#[test]
fn test_processing_lock_struct() {
    let now: u64 = 1_700_000_000_000;
    let lock = ProcessingLock {
        id: "processing_lock:test123".to_string(),
        repo_id: "repo:test456".to_string(),
        instance_id: "embed_star_test".to_string(),
        locked_at_ms: now,
        expires_at_ms: now + 300_000,
        processing_status: "processing".to_string(),
    };

    assert_eq!(lock.instance_id, "embed_star_test");
    assert_eq!(lock.processing_status, "processing");
}

#[test]
fn test_lock_acquire_release_cycle() {
    let mut table = LockTable::new();
    assert!(table.try_acquire("repo:r1", "instance_a", 0, 300));
    assert_eq!(table.rows.len(), 1);
    assert_eq!(table.rows[0].processing_status, "processing");
    assert_eq!(table.rows[0].expires_at_ms, 300_000);

    // Only the owner can release.
    table.release("repo:r1", "instance_b", "failed");
    assert_eq!(table.rows.len(), 1);
    table.release("repo:r1", "instance_a", "completed");
    assert_eq!(table.rows.len(), 0);
}

#[test]
fn test_two_instances_race() {
    // Two processes with distinct instance ids start with the same pending
    // record: exactly one acquires the lock, the other observes false.
    let mut table = LockTable::new();
    let winner = table.try_acquire("repo:r1", "embed_star_a", 1_000, 300);
    let loser = table.try_acquire("repo:r1", "embed_star_b", 1_001, 300);
    assert!(winner);
    assert!(!loser);
    assert_eq!(table.rows.len(), 1);
    assert_eq!(table.rows[0].instance_id, "embed_star_a");

    // After the winner releases, the record can be locked again.
    table.release("repo:r1", "embed_star_a", "completed");
    assert!(table.try_acquire("repo:r1", "embed_star_b", 1_002, 300));
}

#[test]
fn test_expired_lock_can_be_taken_over() {
    let mut table = LockTable::new();
    assert!(table.try_acquire("repo:r1", "embed_star_a", 0, 300));
    // 300 s later the lease has run out; another instance may take over.
    assert!(table.try_acquire("repo:r1", "embed_star_b", 300_000, 300));
    assert_eq!(table.rows.len(), 1);
    assert_eq!(table.rows[0].instance_id, "embed_star_b");
}

#[test]
fn test_extend_only_while_owned_and_live() {
    let mut table = LockTable::new();
    assert!(table.try_acquire("repo:r1", "embed_star_a", 0, 300));
    // The owner extends a live lease.
    assert!(table.extend("repo:r1", "embed_star_a", 60, 100_000));
    assert_eq!(table.rows[0].expires_at_ms, 360_000);
    // A stranger cannot.
    assert!(!table.extend("repo:r1", "embed_star_b", 60, 100_000));
    // Nor the owner once the lease expired.
    assert!(!table.extend("repo:r1", "embed_star_a", 60, 400_000));
}

#[test]
fn test_cleanup_expired_locks() {
    let mut table = LockTable::new();
    assert!(table.try_acquire("repo:r1", "embed_star_a", 0, 300));
    assert!(table.try_acquire("repo:r2", "embed_star_a", 200_000, 300));
    table.cleanup_expired(350_000);
    assert_eq!(table.rows.len(), 1);
    assert_eq!(table.rows[0].repo_id, "repo:r2");
    assert_eq!(table.get_active_locks_count("embed_star_a", 350_000), 1);
    assert_eq!(table.get_active_locks_count("embed_star_b", 350_000), 0);
}
