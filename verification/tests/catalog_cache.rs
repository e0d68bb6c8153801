use querent_core::lsp::cached::{is_expired, lookup, schema_key, table_key, CacheLookup};

#[test]
fn entries_expire_only_past_their_ttl() {
    assert!(!is_expired(5_000, None));
    assert!(!is_expired(5_000, Some(5_000)));
    assert!(is_expired(5_001, Some(5_000)));
    assert!(!is_expired(0, Some(0)));
}

#[test]
fn lookup_fetches_answers_or_refreshes() {
    assert_eq!(lookup(false, 0, Some(10)), CacheLookup::Fetch);
    assert_eq!(lookup(false, 100, None), CacheLookup::Fetch);
    assert_eq!(lookup(true, 10, Some(10)), CacheLookup::Cached);
    assert_eq!(lookup(true, 11, Some(10)), CacheLookup::CachedAndRefresh);
    assert_eq!(lookup(true, u128::MAX, None), CacheLookup::Cached);
}

#[test]
fn keys_default_to_public() {
    assert_eq!(schema_key(None), "public");
    assert_eq!(schema_key(Some("audit")), "audit");
    assert_eq!(table_key("users", None), ("public".to_string(), "users".to_string()));
    assert_eq!(table_key("users", Some("s")), ("s".to_string(), "users".to_string()));
}
