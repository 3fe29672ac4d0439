use tabby::cache::Cache;

#[test]
fn new_cache_is_empty() {
    assert_eq!(Cache::new().len(), 0);
}

#[test]
fn add_leaves_the_shared_list_alone() {
    let cache = Cache::new();
    cache.add("a".to_string());
    cache.add("b".to_string());
    assert_eq!(cache.len(), 0);
}
