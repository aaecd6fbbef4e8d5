use embed_star::embedding_cache::EmbeddingCache;

fn bits(values: &[f32]) -> Vec<u32> {
    values.iter().map(|v| v.to_bits()).collect()
}

#[test]
fn test_cache_basic_operations() {
    let mut cache = EmbeddingCache::new(2, 60);
    let embedding1 = bits(&[0.1, 0.2, 0.3]);
    let embedding2 = bits(&[0.4, 0.5, 0.6]);

    // Test put and get
    cache.put("key1".to_string(), embedding1.clone(), "model1".to_string(), 0);
    let result = cache.get("key1", 1);
    assert!(result.is_some());
    let (retrieved, model) = result.unwrap();
    assert_eq!(retrieved, embedding1);
    assert_eq!(model, "model1");

    // Test cache miss
    assert!(cache.get("nonexistent", 2).is_none());

    // Test LRU eviction
    cache.put("key2".to_string(), embedding2.clone(), "model2".to_string(), 3);
    cache.put("key3".to_string(), bits(&[0.7, 0.8, 0.9]), "model3".to_string(), 4);

    // key1 should be evicted
    assert!(cache.get("key1", 5).is_none());
    assert!(cache.get("key2", 6).is_some());
    assert!(cache.get("key3", 7).is_some());
}

#[test]
fn test_cache_stats() {
    let mut cache = EmbeddingCache::new(100, 3600);

    // Add some entries
    for i in 0..5u64 {
        cache.put(format!("key{}", i), vec![0x3dcccccd; 100], "model".to_string(), i);
    }

    // Access some entries
    cache.get("key0", 10);
    cache.get("key0", 11);
    cache.get("key1", 12);

    let stats = cache.stats();
    assert_eq!(stats.total_entries, 5);
    assert_eq!(stats.hit_count, 3);
    assert_eq!(stats.max_size, 100);
    assert_eq!(stats.total_memory_bytes, 5 * 100 * 4);
    assert_eq!(stats.ttl_seconds, 3600);
}

#[test]
fn test_cache_key_format() {
    assert_eq!(EmbeddingCache::cache_key("owner/repo", "nomic"), "owner/repo:nomic");
}

#[test]
fn test_cache_ttl_expiry_is_a_miss() {
    // An entry older than the TTL is a miss, and the entry is removed.
    let mut cache = EmbeddingCache::new(10, 60);
    cache.put("k".to_string(), bits(&[1.0, 2.0]), "m".to_string(), 0);
    assert!(cache.get("k", 60_000).is_some());
    // 60_001 ms after creation the entry has outlived its 60 s TTL.
    assert!(cache.get("k", 60_001).is_none());
    assert_eq!(cache.stats().total_entries, 0);
}

#[test]
fn test_lru_eviction_takes_least_recently_used() {
    // Inserting into a full cache evicts exactly the entry with the
    // earliest access time.
    let mut cache = EmbeddingCache::new(3, 3600);
    cache.put("a".to_string(), bits(&[1.0]), "m".to_string(), 0);
    cache.put("b".to_string(), bits(&[2.0]), "m".to_string(), 1);
    cache.put("c".to_string(), bits(&[3.0]), "m".to_string(), 2);
    // Touch "a" and "b"; "c" now has the earliest access time.
    cache.get("a", 3);
    cache.get("b", 4);
    cache.put("d".to_string(), bits(&[4.0]), "m".to_string(), 5);
    assert!(cache.get("c", 6).is_none());
    assert!(cache.get("a", 7).is_some());
    assert!(cache.get("b", 8).is_some());
    assert!(cache.get("d", 9).is_some());
}

#[test]
fn test_lru_ttl_cache_scenario() {
    // Cache capacity 2, TTL 60 s. Put k1, put k2, get k1 (hit, k1 now MRU),
    // put k3 -> evicts k2. get k2 misses; get k1 returns the stored vector.
    // After 61 s, get k1 misses and removes the entry.
    let stored = bits(&[0.5, 0.25]);
    let mut cache = EmbeddingCache::new(2, 60);
    cache.put("k1".to_string(), stored.clone(), "m".to_string(), 1_000);
    cache.put("k2".to_string(), bits(&[9.0]), "m".to_string(), 2_000);
    let hit = cache.get("k1", 3_000);
    assert!(hit.is_some());
    cache.put("k3".to_string(), bits(&[7.0]), "m".to_string(), 4_000);
    assert!(cache.get("k2", 5_000).is_none());
    let (vector, _) = cache.get("k1", 6_000).unwrap();
    assert_eq!(vector, stored);
    // 61 s after k1 was created.
    assert!(cache.get("k1", 1_000 + 61_000).is_none());
    assert_eq!(cache.stats().total_entries, 1);
}

#[test]
fn test_evict_expired_sweeps_only_stale_entries() {
    let mut cache = EmbeddingCache::new(10, 60);
    cache.put("old".to_string(), bits(&[1.0]), "m".to_string(), 0);
    cache.put("fresh".to_string(), bits(&[2.0]), "m".to_string(), 50_000);
    cache.evict_expired(70_000);
    assert_eq!(cache.stats().total_entries, 1);
    assert!(cache.get("old", 70_001).is_none());
    assert!(cache.get("fresh", 70_002).is_some());
}

#[test]
fn test_cache_clear() {
    let mut cache = EmbeddingCache::new(10, 60);
    cache.put("a".to_string(), bits(&[1.0]), "m".to_string(), 0);
    cache.put("b".to_string(), bits(&[2.0]), "m".to_string(), 1);
    cache.clear();
    assert_eq!(cache.stats().total_entries, 0);
    assert!(cache.get("a", 2).is_none());
}
