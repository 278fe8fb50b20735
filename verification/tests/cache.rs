use mcp_k8s::cache::ResponseCache;

const SECOND: u64 = 1_000_000_000;

#[test]
fn cache_get_set_roundtrip() {
    let mut cache = ResponseCache::new(60, true);
    cache.set("key1".to_string(), "value1".to_string(), 0);
    assert_eq!(cache.get("key1", SECOND), Some("value1".to_string()));
}

#[test]
fn cache_missing_key_returns_none() {
    let cache = ResponseCache::new(60, true);
    assert_eq!(cache.get("nonexistent", 0), None);
}

#[test]
fn cache_entries_expire_after_ttl() {
    let mut cache = ResponseCache::new(60, true);
    cache.set("k".to_string(), "v".to_string(), 5 * SECOND);
    assert_eq!(cache.get("k", 64 * SECOND), Some("v".to_string()));
    assert_eq!(cache.get("k", 65 * SECOND), None);
    let mut zero = ResponseCache::new(0, true);
    zero.set("key1".to_string(), "value1".to_string(), 7);
    assert_eq!(zero.get("key1", 7), None);
}

#[test]
fn disabled_cache_neither_stores_nor_answers() {
    let mut cache = ResponseCache::disabled();
    cache.set("key1".to_string(), "value1".to_string(), 0);
    assert_eq!(cache.get("key1", 0), None);
    assert!(cache.is_empty());
    cache.invalidate("anything");
    assert!(cache.is_empty());
}

#[test]
fn cache_invalidate_by_prefix() {
    let mut cache = ResponseCache::new(60, true);
    cache.set("list_pods:ns1:".to_string(), "pods1".to_string(), 0);
    cache.set("list_pods:ns2:".to_string(), "pods2".to_string(), 0);
    cache.set("list_deployments:ns1:".to_string(), "deps1".to_string(), 0);
    cache.invalidate("list_pods:");
    assert_eq!(cache.get("list_pods:ns1:", 0), None);
    assert_eq!(cache.get("list_pods:ns2:", 0), None);
    assert_eq!(cache.get("list_deployments:ns1:", 0), Some("deps1".to_string()));
}

#[test]
fn cache_set_overwrites_existing_entry() {
    let mut cache = ResponseCache::new(60, true);
    cache.set("key1".to_string(), "value1".to_string(), 0);
    cache.set("key1".to_string(), "value2".to_string(), 0);
    assert_eq!(cache.get("key1", 0), Some("value2".to_string()));
    assert!(!cache.is_empty());
}

#[test]
fn get_set_roundtrip() {
    let mut cache = ResponseCache::new(60, true);
    cache.set("key1".to_string(), "value1".to_string(), 0);
    assert_eq!(cache.get("key1", 0), Some("value1".to_string()));
}

#[test]
fn get_missing_key_returns_none() {
    let cache = ResponseCache::new(60, true);
    assert_eq!(cache.get("nonexistent", 0), None);
}

#[test]
fn ttl_expiry() {
    let mut cache = ResponseCache::new(0, true);
    cache.set("key1".to_string(), "value1".to_string(), 0);
    assert_eq!(cache.get("key1", 0), None);
}

#[test]
fn disabled_cache_returns_none() {
    let mut cache = ResponseCache::disabled();
    cache.set("key1".to_string(), "value1".to_string(), 0);
    assert_eq!(cache.get("key1", 0), None);
}

#[test]
fn disabled_cache_does_not_store() {
    let mut cache = ResponseCache::disabled();
    cache.set("key1".to_string(), "value1".to_string(), 0);
    assert!(cache.is_empty());
}

#[test]
fn invalidate_by_prefix() {
    let mut cache = ResponseCache::new(60, true);
    cache.set("list_pods:ns1:".to_string(), "pods1".to_string(), 0);
    cache.set("list_pods:ns2:".to_string(), "pods2".to_string(), 0);
    cache.set("list_deployments:ns1:".to_string(), "deps1".to_string(), 0);
    cache.invalidate("list_pods:");
    assert_eq!(cache.get("list_pods:ns1:", 0), None);
    assert_eq!(cache.get("list_pods:ns2:", 0), None);
    assert_eq!(cache.get("list_deployments:ns1:", 0), Some("deps1".to_string()));
}

#[test]
fn invalidate_on_disabled_cache_is_noop() {
    let mut cache = ResponseCache::disabled();
    cache.invalidate("anything");
    assert!(cache.is_empty());
}

#[test]
fn set_overwrites_existing_entry() {
    let mut cache = ResponseCache::new(60, true);
    cache.set("key1".to_string(), "value1".to_string(), 0);
    cache.set("key1".to_string(), "value2".to_string(), 0);
    assert_eq!(cache.get("key1", 0), Some("value2".to_string()));
}

#[test]
fn history_answers_the_last_surviving_write() {
    let mut cache = ResponseCache::new(60, true);
    cache.set("pods/default".to_string(), "a".to_string(), 0);
    cache.set("pods/kube".to_string(), "b".to_string(), SECOND);
    cache.set("svc/default".to_string(), "c".to_string(), 2 * SECOND);
    cache.invalidate("pods/");
    cache.set("pods/kube".to_string(), "d".to_string(), 3 * SECOND);
    cache.set("svc/default".to_string(), "e".to_string(), 4 * SECOND);
    assert_eq!(cache.get("pods/default", 5 * SECOND), None);
    assert_eq!(cache.get("pods/kube", 5 * SECOND), Some("d".to_string()));
    assert_eq!(cache.get("svc/default", 5 * SECOND), Some("e".to_string()));
    assert_eq!(cache.get("svc/default", 64 * SECOND), None);
    assert_eq!(cache.get("pods/kube", 62 * SECOND), Some("d".to_string()));
}
