use gnome_iris::reshade::cache::{UpdateCache, VersionState};

fn now() -> u64 {
    1_700_000_000
}

#[test]
fn write_and_read_version() {
    let mut cache = UpdateCache::new("/tmp/iris".to_owned());
    cache.write_version("6.1.0");
    assert_eq!(cache.read_version().as_deref(), Some("6.1.0"));
}

#[test]
fn read_version_returns_none_when_missing() {
    let cache = UpdateCache::new("/tmp/iris".to_owned());
    assert_eq!(cache.read_version(), None);
}

#[test]
fn needs_update_when_no_timestamp() {
    let cache = UpdateCache::new("/tmp/iris".to_owned());
    assert!(cache.needs_update(now(), 4));
}

#[test]
fn does_not_need_update_when_recent() {
    let mut cache = UpdateCache::new("/tmp/iris".to_owned());
    cache.touch(now());
    assert!(!cache.needs_update(now(), 4));
}

#[test]
fn add_and_read_installed() {
    let mut cache = UpdateCache::new("/tmp/iris".to_owned());
    cache.add_installed("6.1.0");
    cache.add_installed("6.0.0");
    cache.add_installed("6.1.0"); // duplicate
    let installed = cache.read_installed();
    assert_eq!(installed, vec!["6.0.0", "6.1.0"]);
}

#[test]
fn add_installed_with_addon_key_sorts_correctly() {
    let mut cache = UpdateCache::new("/tmp/iris".to_owned());
    cache.add_installed("6.7.3-Addon");
    cache.add_installed("6.7.3");
    cache.add_installed("6.8.0");
    assert_eq!(cache.read_installed(), vec!["6.7.3", "6.7.3-Addon", "6.8.0"]);
}

#[test]
fn remove_installed() {
    let mut cache = UpdateCache::new("/tmp/iris".to_owned());
    cache.add_installed("6.0.0");
    cache.add_installed("6.1.0");
    cache.remove_installed("6.0.0");
    assert_eq!(cache.read_installed(), vec!["6.1.0"]);
}

#[test]
fn remove_installed_nonexistent_is_noop() {
    let mut cache = UpdateCache::new("/tmp/iris".to_owned());
    cache.add_installed("6.1.0");
    cache.remove_installed("9.9.9");
    assert_eq!(cache.read_installed(), vec!["6.1.0"]);
}

#[test]
fn needs_update_only_after_more_than_interval() {
    let mut cache = UpdateCache::new("/tmp/iris".to_owned());
    cache.touch(1000);
    assert!(!cache.needs_update(1000 + 4 * 3600 - 1, 4));
    assert!(!cache.needs_update(1000 + 4 * 3600, 4));
    assert!(cache.needs_update(1000 + 4 * 3600 + 1, 4));
    // a clock behind the last check counts as no time passed
    assert!(!cache.needs_update(10, 4));
    assert!(!cache.needs_update(10, 0));
    assert!(cache.needs_update(1001, 0));
}

#[test]
fn add_then_remove_restores_list() {
    let mut cache = UpdateCache::new("/tmp/iris".to_owned());
    cache.add_installed("6.0.0");
    cache.add_installed("6.2.0");
    let before = cache.read_installed();
    cache.add_installed("6.1.0");
    assert_eq!(cache.read_installed(), vec!["6.0.0", "6.1.0", "6.2.0"]);
    cache.remove_installed("6.1.0");
    assert_eq!(cache.read_installed(), before);
}

#[test]
fn state_roundtrips_through_cache() {
    let state = VersionState { latest: Some("6.7.3".to_owned()), last_checked: Some(5), installed: vec!["6.7.3".to_owned()] };
    let cache = UpdateCache::with_state("/tmp/iris".to_owned(), state);
    assert_eq!(cache.state_path(), "/tmp/iris/reshade_state.json");
    let back = cache.state();
    assert_eq!(back.latest.as_deref(), Some("6.7.3"));
    assert_eq!(back.last_checked, Some(5));
    assert_eq!(back.installed, vec!["6.7.3"]);
}
