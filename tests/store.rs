use porco::store::RequestStore;

#[test]
fn ids_start_at_one_and_increase() {
    let mut store: RequestStore<&str> = RequestStore::new();
    assert_eq!(store.allocate("a"), Some(1));
    assert_eq!(store.allocate("b"), Some(2));
    assert_eq!(store.allocate("c"), Some(3));
    assert_eq!(store.len(), 3);
}

#[test]
fn claim_returns_the_registered_slot() {
    let mut store: RequestStore<&str> = RequestStore::new();
    let a = store.allocate("a").unwrap();
    let b = store.allocate("b").unwrap();
    assert_eq!(store.claim(b), Some("b"));
    assert_eq!(store.claim(a), Some("a"));
    assert_eq!(store.len(), 0);
}

#[test]
fn claim_twice_finds_nothing() {
    let mut store: RequestStore<u32> = RequestStore::new();
    let id = store.allocate(7).unwrap();
    assert_eq!(store.claim(id), Some(7));
    assert_eq!(store.claim(id), None);
    assert!(!store.abandon(id));
}

#[test]
fn unknown_and_reserved_ids_are_not_found() {
    let mut store: RequestStore<u32> = RequestStore::new();
    store.allocate(1).unwrap();
    assert_eq!(store.claim(0), None);
    assert_eq!(store.claim(42), None);
    assert_eq!(store.len(), 1);
}

#[test]
fn abandon_releases_the_slot() {
    let mut store: RequestStore<u32> = RequestStore::new();
    let id = store.allocate(5).unwrap();
    assert!(store.is_pending(id));
    assert!(store.abandon(id));
    assert!(!store.is_pending(id));
    assert_eq!(store.claim(id), None);
    // ids are never reused
    assert_eq!(store.allocate(6), Some(id + 1));
}
