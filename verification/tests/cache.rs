use boru::preview_cache::{
    LinkPreviewCache, CACHE_TTL_NANOS, MAX_CACHE_SIZE, NEGATIVE_CACHE_TTL_NANOS,
};
use boru::preview_data::{LinkPreviewData, LinkPreviewResult};

fn preview(url: &str) -> LinkPreviewResult {
    LinkPreviewResult::Success(LinkPreviewData {
        url: url.to_string(),
        title: None,
        description: None,
        image_url: None,
        image_bytes: None,
    })
}

#[test]
fn test_cache_insert_and_get() {
    let mut cache = LinkPreviewCache::new();
    let result = LinkPreviewResult::Success(LinkPreviewData {
        url: "https://example.com".to_string(),
        title: Some("Example".to_string()),
        description: None,
        image_url: None,
        image_bytes: None,
    });
    cache.insert("https://example.com", result.clone());
    let cached = cache.get("https://example.com");
    assert!(cached.is_some());
}

#[test]
fn test_cache_expires_only_with_ttl() {
    let mut cache = LinkPreviewCache::new();
    cache.insert(
        "https://example.com",
        LinkPreviewResult::Error("test".to_string()),
    );
    assert!(cache.get("https://example.com").is_some());
}

#[test]
fn test_cache_does_not_store_pending() {
    let mut cache = LinkPreviewCache::new();
    cache.insert("https://example.com", LinkPreviewResult::Pending);
    assert!(cache.get("https://example.com").is_none());
    assert!(cache.is_empty());
}

#[test]
fn test_cache_bounded_max_size() {
    let mut cache = LinkPreviewCache::new();
    for i in 0..=MAX_CACHE_SIZE {
        let url = format!("https://example{i}.com");
        cache.insert(&url, preview(&url));
    }
    assert_eq!(cache.len(), MAX_CACHE_SIZE);
    assert!(cache.get("https://example0.com").is_none());
    let last_url = format!("https://example{}.com", MAX_CACHE_SIZE);
    assert!(cache.get(&last_url).is_some());
}

#[test]
fn test_cache_evict_expired_respects_negative_ttl() {
    let mut cache = LinkPreviewCache::new();
    cache.insert(
        "https://error.example.com",
        LinkPreviewResult::Error("test error".to_string()),
    );
    cache.insert(
        "https://success.example.com",
        LinkPreviewResult::Success(LinkPreviewData {
            url: "https://success.example.com".to_string(),
            title: Some("OK".to_string()),
            description: None,
            image_url: None,
            image_bytes: None,
        }),
    );
    assert!(cache.get("https://error.example.com").is_some());
    assert!(cache.get("https://success.example.com").is_some());

    cache.evict_expired();
    assert!(cache.get("https://error.example.com").is_some());
    assert!(cache.get("https://success.example.com").is_some());
}

#[test]
fn test_cache_evict_single_url() {
    let mut cache = LinkPreviewCache::new();
    cache.insert(
        "https://example.com",
        LinkPreviewResult::Error("test".to_string()),
    );
    assert!(cache.get("https://example.com").is_some());
    cache.evict("https://example.com");
    assert!(cache.get("https://example.com").is_none());
}

#[test]
fn test_pending_variant_exists() {
    let pending = LinkPreviewResult::Pending;
    assert!(matches!(pending, LinkPreviewResult::Pending));
}

#[test]
fn entries_expire_at_their_own_age() {
    let mut cache = LinkPreviewCache::new();
    cache.insert_at("https://ok.com", preview("https://ok.com"), 0);
    cache.insert_at("https://bad.com", LinkPreviewResult::Error("e".to_string()), 0);
    assert!(cache.get_at("https://bad.com", NEGATIVE_CACHE_TTL_NANOS - 1).is_some());
    assert!(cache.get_at("https://bad.com", NEGATIVE_CACHE_TTL_NANOS).is_none());
    assert!(cache.get_at("https://ok.com", NEGATIVE_CACHE_TTL_NANOS).is_some());
    assert!(cache.get_at("https://ok.com", CACHE_TTL_NANOS - 1).is_some());
    assert!(cache.get_at("https://ok.com", CACHE_TTL_NANOS).is_none());
}

#[test]
fn eviction_removes_only_what_is_expired() {
    let mut cache = LinkPreviewCache::new();
    cache.insert_at("https://ok.com", preview("https://ok.com"), 0);
    cache.insert_at("https://bad.com", LinkPreviewResult::Error("e".to_string()), 0);
    cache.evict_expired_at(NEGATIVE_CACHE_TTL_NANOS);
    assert_eq!(cache.len(), 1);
    assert!(cache.get_at("https://ok.com", NEGATIVE_CACHE_TTL_NANOS).is_some());
    cache.evict_expired_at(CACHE_TTL_NANOS);
    assert!(cache.is_empty());
}

#[test]
fn what_is_stored_is_found_as_it_was() {
    let mut cache = LinkPreviewCache::default();
    cache.insert_at("https://a.com", preview("https://a.com"), 5);
    cache.insert_at("https://b.com", LinkPreviewResult::Error("no".to_string()), 6);
    match cache.get_at("https://a.com", 7) {
        Some(LinkPreviewResult::Success(data)) => assert_eq!(data.url, "https://a.com"),
        other => panic!("unexpected {other:?}"),
    }
    match cache.get_at("https://b.com", 7) {
        Some(LinkPreviewResult::Error(message)) => assert_eq!(message, "no"),
        other => panic!("unexpected {other:?}"),
    }
    cache.insert_at("https://a.com", LinkPreviewResult::Error("late".to_string()), 8);
    assert_eq!(cache.len(), 2);
    assert!(matches!(
        cache.get_at("https://a.com", 9),
        Some(LinkPreviewResult::Error(m)) if m == "late"
    ));
}
