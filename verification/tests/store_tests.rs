use iconify_core::store::MemStore;

#[test]
fn store_then_lookup_returns_the_exact_text() {
    let mut store = MemStore::new();
    let text = "<svg xmlns=\"http://www.w3.org/2000/svg\"><path d=\"M0 0\"/></svg>";
    store.store("mdi", "home", "a1b2c3d4e5f60718", text.to_string());
    let back = store.lookup("mdi", "home", "a1b2c3d4e5f60718").unwrap();
    assert_eq!(back, text);
}

#[test]
fn lookup_misses_on_absent_entries() {
    let store = MemStore::new();
    assert!(store.lookup("mdi", "home", "a1b2c3d4e5f60718").is_none());

    let mut store = MemStore::new();
    store.store("mdi", "home", "a1b2c3d4e5f60718", "<svg/>".to_string());
    assert!(store.lookup("mdi", "house", "a1b2c3d4e5f60718").is_none());
    assert!(store.lookup("mdi", "home", "ffffffffffffffff").is_none());
}

#[test]
fn restoring_overrides_in_place() {
    let mut store = MemStore::new();
    store.store("mdi", "home", "a1b2c3d4e5f60718", "first".to_string());
    store.store("mdi", "home", "a1b2c3d4e5f60718", "second".to_string());
    assert_eq!(
        store.lookup("mdi", "home", "a1b2c3d4e5f60718").unwrap(),
        "second"
    );
}

#[test]
fn entries_are_kept_apart_by_address() {
    let mut store = MemStore::new();
    store.store("mdi", "home", "1111111111111111", "one".to_string());
    store.store("mdi", "bell", "2222222222222222", "two".to_string());
    store.store("fa", "home", "3333333333333333", "three".to_string());
    assert_eq!(store.lookup("mdi", "home", "1111111111111111").unwrap(), "one");
    assert_eq!(store.lookup("mdi", "bell", "2222222222222222").unwrap(), "two");
    assert_eq!(store.lookup("fa", "home", "3333333333333333").unwrap(), "three");
}
