use bundler_upgraded::cache::{Cache, MemoryCache};

#[test]
fn get_on_empty_cache_misses() {
    let mut cache = MemoryCache::new();
    assert_eq!(cache.get("latest_buildpack_release"), None);
}

#[test]
fn set_with_ttl_stores_and_returns_the_value() {
    let mut cache = MemoryCache::new();
    let stored = cache.set_with_ttl("latest_buildpack_release", "v212", 3600);
    assert_eq!(stored, "v212".to_string());
    assert_eq!(
        cache.get("latest_buildpack_release"),
        Some("v212".to_string())
    );
}

#[test]
fn set_with_ttl_overwrites() {
    let mut cache = MemoryCache::new();
    cache.set_with_ttl("latest_buildpack_release", "v211", 3600);
    cache.set_with_ttl("latest_buildpack_release", "v212", 3600);
    assert_eq!(
        cache.get("latest_buildpack_release"),
        Some("v212".to_string())
    );
}

#[test]
fn hash_get_on_absent_field_misses() {
    let mut cache = MemoryCache::new();
    cache.hash_set_if_absent("bundler_version", "v212", "1.17.2");
    assert_eq!(cache.hash_get("bundler_version", "v211"), None);
    assert_eq!(cache.hash_get("other_space", "v212"), None);
}

#[test]
fn hash_set_if_absent_retains_the_first_value() {
    let mut cache = MemoryCache::new();
    cache.hash_set_if_absent("bundler_version", "v212", "1.17.2");
    cache.hash_set_if_absent("bundler_version", "v212", "9.9.9");
    assert_eq!(
        cache.hash_get("bundler_version", "v212"),
        Some("1.17.2".to_string())
    );
}

#[test]
fn hash_fields_are_independent_per_tag() {
    let mut cache = MemoryCache::new();
    cache.hash_set_if_absent("bundler_version", "v212", "1.17.2");
    cache.hash_set_if_absent("bundler_version", "v211", "1.15.2");
    assert_eq!(
        cache.hash_get("bundler_version", "v212"),
        Some("1.17.2".to_string())
    );
    assert_eq!(
        cache.hash_get("bundler_version", "v211"),
        Some("1.15.2".to_string())
    );
}

#[test]
fn scalar_and_hash_namespaces_are_disjoint() {
    let mut cache = MemoryCache::new();
    cache.set_with_ttl("bundler_version", "9.9.9", 3600);
    assert_eq!(cache.hash_get("bundler_version", "v212"), None);
}
