use anubis_core::cache::AudioCache;

#[test]
fn key_hashes_text_zero_and_voice() {
    let k = AudioCache::make_key("hi", "v");
    assert_eq!(k, xxhash_rust::xxh64::xxh64(b"hi\0v", 0));
    assert_ne!(AudioCache::make_key("a", "bc"), AudioCache::make_key("ab", "c"));
    assert_eq!(AudioCache::make_key("", ""), xxhash_rust::xxh64::xxh64(&[0u8], 0));
}

#[test]
fn get_returns_what_was_inserted() {
    let mut c = AudioCache::new(2);
    assert!(c.get(1).is_none());
    c.insert(1, vec![1, 2, 3]);
    assert_eq!(c.get(1), Some(vec![1, 2, 3]));
    c.insert(1, vec![9]);
    assert_eq!(c.get(1), Some(vec![9]));
}

#[test]
fn full_cache_evicts_least_recently_used() {
    let mut c = AudioCache::new(2);
    c.insert(1, vec![1]);
    c.insert(2, vec![2]);
    assert!(c.get(1).is_some());
    c.insert(3, vec![3]);
    assert!(c.get(2).is_none());
    assert_eq!(c.get(1), Some(vec![1]));
    assert_eq!(c.get(3), Some(vec![3]));
}

#[test]
fn zero_capacity_keeps_one() {
    let mut c = AudioCache::new(0);
    c.insert(1, vec![1]);
    c.insert(2, vec![2]);
    assert!(c.get(1).is_none());
    assert_eq!(c.get(2), Some(vec![2]));
}
