use streamboat_desktop::images::ImageCache;
use streamboat_desktop::shell::images_to_fetch;

fn dummy_handle() -> Vec<u8> {
    vec![0, 0, 0, 255]
}

#[test]
fn insert_then_get_round_trips() {
    let mut cache = ImageCache::new(4);
    cache.insert("https://example.com/a.jpg".into(), dummy_handle());
    assert!(cache.peek("https://example.com/a.jpg").is_some());
    assert!(cache.peek("https://example.com/missing.jpg").is_none());
}

#[test]
fn evicts_the_oldest_entry_past_capacity() {
    let mut cache = ImageCache::new(2);
    cache.insert("a".into(), dummy_handle());
    cache.insert("b".into(), dummy_handle());
    cache.insert("a".into(), dummy_handle());
    cache.insert("c".into(), dummy_handle());

    assert_eq!(cache.len(), 2);
    assert!(cache.contains("a"));
    assert!(cache.contains("c"));
    assert!(!cache.contains("b"));
}

#[test]
fn re_inserting_an_existing_url_does_not_grow_the_cache() {
    let mut cache = ImageCache::new(2);
    cache.insert("a".into(), dummy_handle());
    cache.insert("a".into(), dummy_handle());
    assert_eq!(cache.len(), 1);
}

#[test]
fn re_inserting_replaces_the_handle() {
    let mut cache = ImageCache::new(2);
    cache.insert("a".into(), vec![1u8]);
    cache.insert("a".into(), vec![2u8]);
    assert_eq!(cache.peek("a"), Some(vec![2u8]));
}

#[test]
fn inserting_with_room_keeps_everything() {
    let mut cache = ImageCache::new(3);
    cache.insert("a".into(), dummy_handle());
    cache.insert("b".into(), dummy_handle());
    cache.insert("c".into(), dummy_handle());
    assert_eq!(cache.len(), 3);
    assert!(cache.contains("a") && cache.contains("b") && cache.contains("c"));
}

#[test]
fn only_unknown_urls_are_fetched() {
    let mut cache = ImageCache::new(4);
    cache.insert("https://x/a".into(), dummy_handle());
    let urls = vec![
        Some("https://x/a".to_string()),
        None,
        Some("https://x/b".to_string()),
    ];
    assert_eq!(images_to_fetch(&urls, &cache), vec!["https://x/b".to_string()]);
}
