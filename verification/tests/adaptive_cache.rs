use lemonade::strategy::adapters::adaptive::AdaptiveCache;

fn score(cache: &AdaptiveCache, backend_id: u8, now_ms: u64) -> Option<f64> {
    cache.get(backend_id, now_ms).map(f64::from_bits)
}

#[test]
fn adaptive_cache_new_should_succeed() {
    let ttl_ms = 1000u64;
    let cache = AdaptiveCache::new(ttl_ms);
    assert!(cache.get(1, 0).is_none());
}

#[test]
fn adaptive_cache_default_should_succeed() {
    let cache = AdaptiveCache::default();
    assert!(cache.get(1, 0).is_none());
}

#[test]
fn adaptive_cache_put_and_get_should_succeed() {
    let mut cache = AdaptiveCache::new(1000);
    let backend_id = 1u8;
    let s = 10.5f64;
    let now_ms = 1000u64;
    cache.put(backend_id, s.to_bits(), now_ms);
    let retrieved = score(&cache, backend_id, now_ms);
    assert_eq!(retrieved, Some(10.5));
}

#[test]
fn adaptive_cache_get_expired_should_succeed() {
    let mut cache = AdaptiveCache::new(100);
    let backend_id = 1u8;
    cache.put(backend_id, 10.5f64.to_bits(), 1000);
    let retrieved = score(&cache, backend_id, 1200);
    assert_eq!(retrieved, None);
}

#[test]
fn adaptive_cache_get_within_ttl_should_succeed() {
    let mut cache = AdaptiveCache::new(1000);
    let backend_id = 1u8;
    cache.put(backend_id, 10.5f64.to_bits(), 1000);
    let retrieved = score(&cache, backend_id, 1500);
    assert_eq!(retrieved, Some(10.5));
}

#[test]
fn adaptive_cache_get_non_existing_should_succeed() {
    let cache = AdaptiveCache::new(1000);
    let retrieved = score(&cache, 99, 1000);
    assert_eq!(retrieved, None);
}

#[test]
fn adaptive_cache_put_overwrite_should_succeed() {
    let mut cache = AdaptiveCache::new(1000);
    let backend_id = 1u8;
    cache.put(backend_id, 10.5f64.to_bits(), 1000);
    cache.put(backend_id, 20.0f64.to_bits(), 2000);
    let retrieved = score(&cache, backend_id, 2000);
    assert_eq!(retrieved, Some(20.0));
}

#[test]
fn adaptive_cache_multiple_backends_should_succeed() {
    let mut cache = AdaptiveCache::new(1000);
    let now_ms = 1000u64;
    cache.put(1, 10.5f64.to_bits(), now_ms);
    cache.put(2, 20.0f64.to_bits(), now_ms);
    cache.put(3, 30.0f64.to_bits(), now_ms);
    assert_eq!(score(&cache, 1, now_ms), Some(10.5));
    assert_eq!(score(&cache, 2, now_ms), Some(20.0));
    assert_eq!(score(&cache, 3, now_ms), Some(30.0));
}

#[test]
fn adaptive_cache_get_at_exact_ttl_boundary_should_succeed() {
    let mut cache = AdaptiveCache::new(100);
    let backend_id = 1u8;
    cache.put(backend_id, 10.5f64.to_bits(), 1000);
    let retrieved = score(&cache, backend_id, 1100);
    assert_eq!(retrieved, Some(10.5));
}

#[test]
fn adaptive_cache_get_just_after_ttl_should_succeed() {
    let mut cache = AdaptiveCache::new(100);
    let backend_id = 1u8;
    cache.put(backend_id, 10.5f64.to_bits(), 1000);
    let retrieved = score(&cache, backend_id, 1101);
    assert_eq!(retrieved, None);
}

#[test]
fn adaptive_cache_get_just_before_ttl_should_succeed() {
    let mut cache = AdaptiveCache::new(100);
    let backend_id = 1u8;
    cache.put(backend_id, 10.5f64.to_bits(), 1000);
    let retrieved = score(&cache, backend_id, 1099);
    assert_eq!(retrieved, Some(10.5));
}

#[test]
fn adaptive_cache_get_with_zero_ttl_should_succeed() {
    let mut cache = AdaptiveCache::new(0);
    let backend_id = 1u8;
    cache.put(backend_id, 10.5f64.to_bits(), 1000);
    let retrieved = score(&cache, backend_id, 1000);
    assert_eq!(retrieved, Some(10.5));
}

#[test]
fn adaptive_cache_get_with_zero_ttl_after_put_should_succeed() {
    let mut cache = AdaptiveCache::new(0);
    let backend_id = 1u8;
    cache.put(backend_id, 10.5f64.to_bits(), 1000);
    let retrieved = score(&cache, backend_id, 1001);
    assert_eq!(retrieved, None);
}

#[test]
fn adaptive_cache_get_with_future_timestamp_should_succeed() {
    let mut cache = AdaptiveCache::new(1000);
    let backend_id = 1u8;
    cache.put(backend_id, 10.5f64.to_bits(), 1000);
    let retrieved = score(&cache, backend_id, 500);
    assert_eq!(retrieved, Some(10.5));
}

#[test]
fn adaptive_cache_default_ttl_is_100ms() {
    let mut cache = AdaptiveCache::default();
    cache.put(4, 1.25f64.to_bits(), 0);
    assert_eq!(score(&cache, 4, 100), Some(1.25));
    assert_eq!(score(&cache, 4, 101), None);
    // other backends are unaffected by a put
    assert_eq!(score(&cache, 5, 0), None);
}

#[test]
fn adaptive_cache_serves_the_last_put_of_a_history() {
    let mut cache = AdaptiveCache::new(100);
    cache.put(1, 1.0f64.to_bits(), 10);
    cache.put(2, 2.0f64.to_bits(), 20);
    cache.put(1, 3.0f64.to_bits(), 50);
    cache.put(3, 4.0f64.to_bits(), 0);
    assert_eq!(score(&cache, 1, 150), Some(3.0));
    assert_eq!(score(&cache, 1, 151), None);
    assert_eq!(score(&cache, 2, 120), Some(2.0));
    assert_eq!(score(&cache, 2, 121), None);
    assert_eq!(score(&cache, 3, 100), Some(4.0));
    assert_eq!(score(&cache, 4, 0), None);
    // reading changes nothing
    assert_eq!(score(&cache, 1, 150), Some(3.0));
}

#[test]
fn adaptive_cache_version_bumps_invalidate_scores() {
    let mut cache = AdaptiveCache::new(1000);
    cache.put(1, 1.5f64.to_bits(), 10);
    cache.put(2, 2.5f64.to_bits(), 10);
    cache.bump_metrics_version();
    assert_eq!(score(&cache, 1, 10), None);
    assert_eq!(score(&cache, 2, 10), None);
    cache.put(1, 3.5f64.to_bits(), 20);
    assert_eq!(score(&cache, 1, 20), Some(3.5));
    cache.bump_connections_version();
    assert_eq!(score(&cache, 1, 20), None);
    cache.put(2, 4.5f64.to_bits(), 30);
    assert_eq!(score(&cache, 2, 30), Some(4.5));
}
