use mars_xlog::handle::Xlog;
use mars_xlog::lifecycle::OwnerCount;
use mars_xlog::registry::LoggerRegistry;

fn handle(instance: usize, name: &str) -> Xlog {
    Xlog::from_create(instance, name.to_string()).unwrap()
}

#[test]
fn ids_start_at_one_and_never_repeat() {
    let mut registry = LoggerRegistry::new();
    let first = registry.insert_logger(handle(7, "a"));
    assert_eq!(first, 1);
    let second = registry.insert_logger(handle(8, "b"));
    assert_eq!(second, 2);
    assert!(registry.remove_logger(first));
    // The freed id is not handed out again.
    let third = registry.insert_logger(handle(9, "c"));
    assert_eq!(third, 3);
}

#[test]
fn lookup_returns_the_registered_handle() {
    let mut registry = LoggerRegistry::new();
    let id = registry.insert_logger(handle(7, "demo"));
    let got = registry.get_logger(id).expect("registered id must be found");
    assert_eq!(got.instance(), 7);
    assert_eq!(got.name_prefix, "demo");
}

#[test]
fn register_remove_lookup_always_misses() {
    let mut registry = LoggerRegistry::new();
    let id = registry.insert_logger(handle(7, "demo"));
    assert!(registry.remove_logger(id));
    assert!(registry.get_logger(id).is_none());
    // Removing the same id a second time reports false, not an error.
    assert!(!registry.remove_logger(id));
    assert!(registry.get_logger(id).is_none());
}

#[test]
fn removing_an_unknown_id_is_a_miss() {
    let mut registry = LoggerRegistry::new();
    assert!(!registry.remove_logger(0));
    assert!(!registry.remove_logger(41));
    assert!(registry.get_logger(41).is_none());
}

#[test]
fn removal_leaves_other_entries_alone() {
    let mut registry = LoggerRegistry::new();
    let a = registry.insert_logger(handle(7, "a"));
    let b = registry.insert_logger(handle(8, "b"));
    assert_eq!(registry.len(), 2);
    assert!(registry.remove_logger(a));
    assert_eq!(registry.len(), 1);
    let got = registry.get_logger(b).expect("the other entry must survive");
    assert_eq!(got.instance(), 8);
}

#[test]
fn every_owner_dropped_releases_exactly_once() {
    // One creation plus two clones: three owners of the same instance.
    let mut owners = OwnerCount::new();
    owners.acquire();
    owners.acquire();
    let mut releases = 0;
    for _ in 0..3 {
        if owners.release() {
            releases += 1;
        }
    }
    assert_eq!(releases, 1);
}

#[test]
fn a_single_owner_releases_on_its_only_drop() {
    let mut owners = OwnerCount::new();
    assert!(owners.is_last());
    assert!(owners.release());
}

#[test]
fn early_drops_never_release() {
    let mut owners = OwnerCount::new();
    for _ in 0..10 {
        owners.acquire();
    }
    for _ in 0..10 {
        assert!(!owners.is_last());
        assert!(!owners.release());
    }
    assert!(owners.release());
}
