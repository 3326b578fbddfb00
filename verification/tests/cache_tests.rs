//! Cache bookkeeping: freshness under a time-to-live, ages, and paths.

use cargo_x402::cache::{Cache, CachedTemplates};

#[test]
fn test_cached_templates_is_fresh() {
    let templates = vec![];
    let cached = CachedTemplates::new(templates);

    assert!(cached.is_fresh(1));
    assert!(cached.is_fresh(24));
}

#[test]
fn test_cached_templates_is_stale() {
    let templates = vec![];
    let mut cached = CachedTemplates::new(templates);

    // Artificially age the cache by two hours.
    cached.last_updated = chrono::Utc::now().timestamp() - 2 * 3600;

    assert!(!cached.is_fresh(1));
    assert!(cached.is_fresh(3));
}

#[test]
fn test_is_fresh_at_boundary() {
    let cached = CachedTemplates {
        last_updated: 10_000,
        templates: vec![],
    };
    // One second under the time-to-live is fresh; exactly at it is not.
    assert!(cached.is_fresh_at(10_000 + 3599, 1));
    assert!(!cached.is_fresh_at(10_000 + 3600, 1));
}

#[test]
fn test_age_hours_at_truncates() {
    let cached = CachedTemplates {
        last_updated: 0,
        templates: vec![],
    };
    assert_eq!(cached.age_hours_at(3599), 0);
    assert_eq!(cached.age_hours_at(3600), 1);
    assert_eq!(cached.age_hours_at(2 * 3600 + 17), 2);
}

#[test]
fn test_cache_paths() {
    let cache = Cache {
        cache_dir: "/home/user/.cache/x402".to_string(),
        ttl_hours: 1,
    };
    assert_eq!(cache.cache_file_path(), "/home/user/.cache/x402/templates.json");
    assert_eq!(cache.ttl(), 1);
}

#[test]
fn test_cache_from_root() {
    let cache = Cache::from_cache_root(Some("/home/user/.cache".to_string()), 2).unwrap();
    assert_eq!(cache.cache_dir, "/home/user/.cache/x402");
    assert_eq!(cache.ttl_hours, 2);

    let err = Cache::from_cache_root(None, 2).unwrap_err();
    assert!(err.message().contains("Cannot determine cache directory"));
}
