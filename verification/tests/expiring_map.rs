use dilobo::expiring_map::ExpiringMap;

#[test]
fn new_cache_is_empty() {
    let cache: ExpiringMap<u32> = ExpiringMap::new(10);
    assert_eq!(cache.get(&1), None);
}

#[test]
fn insert_then_get_returns_value() {
    let mut cache: ExpiringMap<u32> = ExpiringMap::new(300_000_000_000);
    cache.insert(7, 42);
    assert_eq!(cache.get(&7), Some(&42));
    assert_eq!(cache.get(&8), None);
}

#[test]
fn insert_replaces_the_value_of_a_key() {
    let mut cache: ExpiringMap<&str> = ExpiringMap::new(10);
    cache.insert_at(0, 1, "old");
    cache.insert_at(1, 1, "new");
    assert_eq!(cache.get(&1), Some(&"new"));
}

#[test]
fn remove_returns_the_value_and_forgets_it() {
    let mut cache: ExpiringMap<&str> = ExpiringMap::new(10);
    cache.insert_at(0, 1, "a");
    assert_eq!(cache.remove(&1), Some("a"));
    assert_eq!(cache.get(&1), None);
    assert_eq!(cache.remove(&1), None);
}

#[test]
fn entry_is_readable_before_its_expiry() {
    let mut cache: ExpiringMap<&str> = ExpiringMap::new(10);
    cache.insert_at(0, 1, "a");
    cache.insert_at(5, 2, "b");
    cache.insert_at(9, 3, "c");
    assert_eq!(cache.get(&1), Some(&"a"));
    assert_eq!(cache.get(&2), Some(&"b"));
    assert_eq!(cache.get(&3), Some(&"c"));
}

#[test]
fn entry_is_gone_after_an_insert_at_its_expiry() {
    let mut cache: ExpiringMap<&str> = ExpiringMap::new(10);
    cache.insert_at(0, 1, "a");
    cache.insert_at(5, 2, "b");
    cache.insert_at(10, 3, "c");
    assert_eq!(cache.get(&1), None);
    assert_eq!(cache.get(&2), Some(&"b"));
    assert_eq!(cache.get(&3), Some(&"c"));
}

#[test]
fn entry_is_gone_after_an_insert_past_its_expiry() {
    let mut cache: ExpiringMap<&str> = ExpiringMap::new(10);
    cache.insert_at(0, 1, "a");
    cache.insert_at(5, 2, "b");
    cache.insert_at(1_000, 3, "c");
    assert_eq!(cache.get(&1), None);
    assert_eq!(cache.get(&2), None);
    assert_eq!(cache.get(&3), Some(&"c"));
}

#[test]
fn expired_entry_stays_readable_until_the_next_purge() {
    let mut cache: ExpiringMap<&str> = ExpiringMap::new(10);
    cache.insert_at(0, 1, "a");
    assert_eq!(cache.get(&1), Some(&"a"));
    cache.cleanup_at(9);
    assert_eq!(cache.get(&1), Some(&"a"));
    cache.cleanup_at(10);
    assert_eq!(cache.get(&1), None);
}

#[test]
fn remove_does_not_purge() {
    let mut cache: ExpiringMap<&str> = ExpiringMap::new(5);
    cache.insert_at(0, 1, "a");
    cache.insert_at(0, 2, "b");
    assert_eq!(cache.remove(&2), Some("b"));
    assert_eq!(cache.get(&1), Some(&"a"));
}

#[test]
fn purge_stops_at_the_first_entry_that_has_not_expired() {
    let mut cache: ExpiringMap<&str> = ExpiringMap::new(10);
    cache.insert_at(100, 1, "late");
    cache.insert_at(0, 2, "early");
    cache.insert_at(50, 3, "c");
    assert_eq!(cache.get(&1), Some(&"late"));
    assert_eq!(cache.get(&2), Some(&"early"));
    assert_eq!(cache.get(&3), Some(&"c"));
}

#[test]
fn expiry_of_a_removed_value_leaves_the_value_stored_anew() {
    let mut cache: ExpiringMap<&str> = ExpiringMap::new(10);
    cache.insert_at(0, 1, "old");
    assert_eq!(cache.remove(&1), Some("old"));
    cache.insert_at(5, 1, "new");
    cache.insert_at(10, 2, "other");
    assert_eq!(cache.get(&1), Some(&"new"));
    assert_eq!(cache.get(&2), Some(&"other"));
    cache.insert_at(14, 3, "third");
    assert_eq!(cache.get(&1), Some(&"new"));
    cache.insert_at(15, 4, "fourth");
    assert_eq!(cache.get(&1), None);
    assert_eq!(cache.get(&2), Some(&"other"));
}

#[test]
fn value_stored_twice_lives_until_its_second_expiry() {
    let mut cache: ExpiringMap<&str> = ExpiringMap::new(10);
    cache.insert_at(0, 1, "first");
    cache.insert_at(5, 1, "second");
    cache.insert_at(12, 2, "other");
    assert_eq!(cache.get(&1), Some(&"second"));
    cache.cleanup_at(14);
    assert_eq!(cache.get(&1), Some(&"second"));
    cache.cleanup_at(15);
    assert_eq!(cache.get(&1), None);
    assert_eq!(cache.get(&2), Some(&"other"));
}

#[test]
fn expiry_of_a_removed_value_is_passed_over() {
    let mut cache: ExpiringMap<&str> = ExpiringMap::new(10);
    cache.insert_at(0, 1, "a");
    cache.insert_at(1, 2, "b");
    assert_eq!(cache.remove(&1), Some("a"));
    cache.insert_at(11, 3, "c");
    assert_eq!(cache.get(&1), None);
    assert_eq!(cache.get(&2), None);
    assert_eq!(cache.get(&3), Some(&"c"));
}

#[test]
fn value_stored_twice_at_one_instant_expires_once() {
    let mut cache: ExpiringMap<&str> = ExpiringMap::new(10);
    cache.insert_at(3, 1, "a");
    cache.insert_at(3, 1, "b");
    cache.cleanup_at(12);
    assert_eq!(cache.get(&1), Some(&"b"));
    cache.cleanup_at(13);
    assert_eq!(cache.get(&1), None);
}

#[test]
fn cache_can_share_the_clock_of_its_owner() {
    let origin = std::time::Instant::now();
    let mut first: ExpiringMap<u32> = ExpiringMap::with_clock(0, origin);
    let mut second: ExpiringMap<u32> = ExpiringMap::with_clock(u64::MAX, origin);
    first.insert(1, 10);
    second.insert(1, 10);
    first.insert(2, 20);
    second.insert(2, 20);
    assert_eq!(first.get(&1), None);
    assert_eq!(second.get(&1), Some(&10));
}

#[test]
fn update_replaces_the_value_without_a_new_lease() {
    let mut cache: ExpiringMap<&str> = ExpiringMap::new(10);
    cache.insert_at(0, 1, "a");
    assert!(cache.update(1, "b"));
    assert_eq!(cache.get(&1), Some(&"b"));
    assert!(!cache.update(9, "z"));
    assert_eq!(cache.get(&9), None);
    cache.insert_at(10, 2, "c");
    assert_eq!(cache.get(&1), None);
}

#[test]
fn entry_without_time_to_live_is_purged_by_the_next_insert() {
    let mut cache: ExpiringMap<u32> = ExpiringMap::new(0);
    cache.insert(1, 10);
    cache.insert(2, 20);
    assert_eq!(cache.get(&1), None);
    assert_eq!(cache.get(&2), Some(&20));
}

#[test]
fn cleanup_keeps_entries_that_live_long() {
    let mut cache: ExpiringMap<u32> = ExpiringMap::new(u64::MAX);
    cache.insert(1, 10);
    cache.cleanup();
    assert_eq!(cache.get(&1), Some(&10));
}

#[test]
fn huge_instants_do_not_overflow() {
    let mut cache: ExpiringMap<u32> = ExpiringMap::new(u64::MAX);
    cache.insert_at(u128::MAX, 1, 10);
    cache.insert_at(u128::MAX, 2, 20);
    assert_eq!(cache.get(&1), Some(&10));
    cache.insert_at(0, 3, 30);
    assert_eq!(cache.get(&1), Some(&10));
}
