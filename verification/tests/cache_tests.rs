use raftstore_core::cache::{Broacast, VersionCache};
use raftstore_core::config::Config;

#[test]
fn test_config_validate() {
    let cfg = Config::default();
    cfg.validate().unwrap();

    let mut invalid_cfg = Config::default();
    invalid_cfg.wait_for_lock_timeout = 0;
    assert!(invalid_cfg.validate().is_err());
}

#[test]
fn version_cache_getter_refreshes() {
    let mut cache = VersionCache::new(1u64);
    let mut getter = cache.getter();
    assert_eq!(*getter.value(), 1);
    // Nothing changed: no refresh.
    assert!(!getter.refresh(&cache));
    cache.replace(5);
    assert!(getter.refresh(&cache));
    assert_eq!(*getter.value(), 5);
    assert!(!getter.refresh(&cache));
}

#[test]
fn version_cache_observer_sees_each_change_once() {
    let mut cache = VersionCache::new(10u64);
    let mut observer = cache.observer();
    // Caught up at creation.
    assert!(observer.observe(&cache).is_none());
    cache.replace(11);
    cache.replace(12);
    assert_eq!(observer.observe(&cache), Some(&12));
    assert!(observer.observe(&cache).is_none());
}

#[test]
fn version_cache_update_applies_function() {
    let mut cache = VersionCache::new(3u64);
    cache.update(|v: &u64| v + 10);
    let getter = cache.getter();
    assert_eq!(*getter.value(), 13);
}

#[test]
fn broacast_receivers_consume_at_their_own_pace() {
    let mut b = Broacast::new(1u64);
    let mut r1 = b.add_recv();
    // A fresh receiver takes the current value.
    assert_eq!(r1.any_new(&b), Some(1));
    assert_eq!(r1.any_new(&b), None);
    b.broacast(2);
    let mut r2 = b.add_recv();
    assert_eq!(r1.any_new(&b), Some(2));
    assert_eq!(r2.any_new(&b), Some(2));
    assert_eq!(r2.any_new(&b), None);
    // A cloned receiver starts over.
    let mut r3 = r1.clone();
    assert_eq!(r3.any_new(&b), Some(2));
}
