use zn::embedding_cache::EmbeddingCache;

fn bits(v: &[f32]) -> Vec<u32> {
    v.iter().map(|x| x.to_bits()).collect()
}

fn floats(v: Vec<u32>) -> Vec<f32> {
    v.into_iter().map(f32::from_bits).collect()
}

#[test]
fn test_cache_insert_and_get() {
    let mut cache = EmbeddingCache::new(300, 100);
    let text = "test text";
    let embedding = vec![1.0f32, 2.0, 3.0];

    cache.insert("m1", text, bits(&embedding));
    let result = cache.get("m1", text);

    assert!(result.is_some());
    assert_eq!(floats(result.unwrap()), embedding);
}

#[test]
fn test_cache_miss() {
    let mut cache = EmbeddingCache::new(300, 100);

    assert!(cache.get("m1", "nonexistent").is_none());
}

#[test]
fn test_cache_lru_eviction() {
    let mut cache = EmbeddingCache::new(300, 3);

    for i in 0..5 {
        cache.insert("m1", &format!("text{i}"), bits(&vec![i as f32; 3]));
    }

    assert!(cache.get("m1", "text0").is_none());
    assert!(cache.get("m1", "text1").is_none());
    assert!(cache.get("m1", "text2").is_some());
    assert!(cache.get("m1", "text3").is_some());
    assert!(cache.get("m1", "text4").is_some());
}

#[test]
fn test_cache_stats() {
    let cache = EmbeddingCache::new(300, 100);

    let stats = cache.stats();
    assert_eq!(stats.size, 0);
    assert_eq!(stats.max_size, 100);
    assert_eq!(stats.ttl_seconds, 300);
}

#[test]
fn test_cache_clear() {
    let mut cache = EmbeddingCache::new(300, 100);

    cache.insert("m1", "text1", bits(&[1.0]));
    cache.insert("m1", "text2", bits(&[2.0]));

    assert_eq!(cache.stats().size, 2);

    cache.clear();

    assert_eq!(cache.stats().size, 0);
}

#[test]
fn different_model_id_is_a_miss() {
    let mut cache = EmbeddingCache::new(300, 100);
    cache.insert("model-a", "same text", bits(&[1.0, 2.0]));
    assert!(cache.get("model-a", "same text").is_some());
    assert!(cache.get("model-b", "same text").is_none());
}

#[test]
fn use_protects_from_eviction() {
    let mut cache = EmbeddingCache::new(300, 2);
    cache.insert("m", "a", vec![1]);
    cache.insert("m", "b", vec![2]);
    assert_eq!(cache.get("m", "a"), Some(vec![1]));
    cache.insert("m", "c", vec![3]);
    assert_eq!(cache.get("m", "b"), None);
    assert_eq!(cache.get("m", "a"), Some(vec![1]));
    assert_eq!(cache.get("m", "c"), Some(vec![3]));
}

#[test]
fn reinsert_replaces_value() {
    let mut cache = EmbeddingCache::new(300, 2);
    cache.insert("m", "a", vec![1]);
    cache.insert("m", "a", vec![9]);
    assert_eq!(cache.stats().size, 1);
    assert_eq!(cache.get("m", "a"), Some(vec![9]));
}

#[test]
fn explicit_times_expire_entries() {
    let mut cache = EmbeddingCache::new(1, 10);
    cache.insert_at("m", "a", vec![1], 0);
    cache.insert_at("m", "b", vec![2], 500_000_000);
    assert_eq!(cache.get_at("m", "a", 999_999_999), Some(vec![1]));
    cache.cleanup_expired_at(1_000_000_000);
    assert_eq!(cache.stats().size, 1);
    assert_eq!(cache.get_at("m", "b", 1_000_000_000), Some(vec![2]));
    assert_eq!(cache.get_at("m", "b", 1_500_000_000), None);
    assert_eq!(cache.stats().size, 0);
}

#[test]
fn key_has_model_and_padded_hash() {
    let k = EmbeddingCache::key("model-a", "same text");
    assert!(k.starts_with("model-a:"));
    assert_eq!(k.len(), "model-a:".len() + 16);
    assert!(k["model-a:".len()..].chars().all(|c| c.is_ascii_hexdigit() && !c.is_ascii_uppercase()));
    assert_eq!(k, EmbeddingCache::key("model-a", "same text"));
}
