use enlightened_cat::{CacheEntry, SharedState};

/// Simulates the gateway-facing refresh loop for one day-stamped read:
/// returns the value handed back and whether the gateway had to be called.
fn get_or_refresh(
    entry: &mut CacheEntry<String>,
    today: i32,
    fetched: &str,
) -> (String, bool) {
    match entry.lookup(today) {
        Some(v) => (v.clone(), false),
        None => {
            let fresh = fetched.to_string();
            entry.store(fresh.clone(), today);
            (fresh, true)
        }
    }
}

#[test]
fn first_read_fetches_same_day_hits_next_day_fetches_again() {
    let mut entry: CacheEntry<String> = CacheEntry::new();
    let day = 739_000;

    let (v1, called1) = get_or_refresh(&mut entry, day, "morning wisdom");
    assert!(called1, "a fresh process must call the gateway");
    assert_eq!(v1, "morning wisdom");

    let (v2, called2) = get_or_refresh(&mut entry, day, "should not be fetched");
    assert!(!called2, "a second read on the same day must hit the cache");
    assert_eq!(v2, "morning wisdom");

    let (v3, called3) = get_or_refresh(&mut entry, day + 1, "next day wisdom");
    assert!(called3, "a read after the date advanced must fetch once more");
    assert_eq!(v3, "next day wisdom");

    let (v4, called4) = get_or_refresh(&mut entry, day + 1, "should not be fetched");
    assert!(!called4);
    assert_eq!(v4, "next day wisdom");
}

#[test]
fn empty_entry_is_stale_on_every_day() {
    let entry: CacheEntry<String> = CacheEntry::new();
    assert!(entry.is_stale(0));
    assert!(entry.is_stale(739_000));
    assert!(entry.is_stale(-1));
    assert!(entry.lookup(739_000).is_none());
}

#[test]
fn store_updates_value_and_day_together() {
    let mut entry: CacheEntry<u32> = CacheEntry::new();
    entry.store(7, 100);
    assert_eq!(entry.value, Some(7));
    assert_eq!(entry.last_updated_day, Some(100));
    assert_eq!(entry.lookup(100), Some(&7));
    assert_eq!(entry.lookup(101), None);

    entry.store(8, 101);
    assert_eq!(entry.lookup(101), Some(&8));
    assert_eq!(entry.lookup(100), None);
}

#[test]
fn todays_clock_based_read_sees_what_was_stored_today() {
    let mut entry: CacheEntry<String> = CacheEntry::new();
    assert!(entry.lookup_today().is_none());
    entry.store_today("cached for the day".to_string());
    // Unless the UTC date rolls over between the two calls, the value is
    // served back without another fetch.
    if let Some(v) = entry.lookup_today() {
        assert_eq!(v, "cached for the day");
    }
    assert_eq!(entry.value.as_deref(), Some("cached for the day"));
}

#[test]
fn startup_state_is_empty() {
    let mut state = SharedState::new();
    assert!(state.daily_wisdom.value.is_none());
    assert!(state.quantum_wisdom.value.is_none());
    assert!(state.quantum_field.value.is_none());
    assert!(!state.conversations.contains("s1"));
}
