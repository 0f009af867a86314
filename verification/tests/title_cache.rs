//! The title cache: one network call per identifier, shared lookups.

use modrinth_downloader::cache::TitleCache;

/// Resolves a title the way the driver does: cache first, the "network"
/// only on a miss, recording the answer.
fn resolve_title(cache: &mut TitleCache, id: &str, network_calls: &mut usize) -> String {
    match cache.get(&id.to_string()) {
        Some(title) => title,
        None => {
            *network_calls += 1;
            let title = format!("Title of {}", id);
            cache.insert(id.to_string(), title.clone());
            title
        }
    }
}

#[test]
fn two_lookups_cost_one_network_call() {
    let mut cache = TitleCache::new();
    let mut network_calls: usize = 0;
    let first = resolve_title(&mut cache, "sodium", &mut network_calls);
    let second = resolve_title(&mut cache, "sodium", &mut network_calls);
    assert_eq!(first, "Title of sodium");
    assert_eq!(second, first);
    assert_eq!(network_calls, 1);
}

#[test]
fn distinct_identifiers_do_not_share_entries() {
    let mut cache = TitleCache::new();
    let mut network_calls: usize = 0;
    let a = resolve_title(&mut cache, "sodium", &mut network_calls);
    let b = resolve_title(&mut cache, "lithium", &mut network_calls);
    assert_eq!(network_calls, 2);
    assert_eq!(a, "Title of sodium");
    assert_eq!(b, "Title of lithium");
    assert_eq!(cache.get(&"sodium".to_string()), Some(a));
    assert_eq!(cache.get(&"lithium".to_string()), Some(b));
}

#[test]
fn a_fresh_cache_is_empty() {
    let cache = TitleCache::new();
    assert_eq!(cache.get(&"sodium".to_string()), None);
}

#[test]
fn inserting_again_replaces_the_recorded_title() {
    let mut cache = TitleCache::new();
    cache.insert("sodium".to_string(), "Old".to_string());
    cache.insert("sodium".to_string(), "New".to_string());
    assert_eq!(cache.get(&"sodium".to_string()), Some("New".to_string()));
}
