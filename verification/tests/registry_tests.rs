use axact::registry::SessionRegistry;

#[test]
fn register_assigns_sequential_ids_and_default_names() {
    let mut reg = SessionRegistry::new();
    assert_eq!(reg.count(), 0);
    assert!(reg.is_empty());

    let a = reg.register();
    let b = reg.register();
    let c = reg.register();
    assert_eq!(a, 1);
    assert_eq!(b, 2);
    assert_eq!(c, 3);

    assert_eq!(reg.lookup_name(1), Some("Unknown-1".to_string()));
    assert_eq!(reg.lookup_name(2), Some("Unknown-2".to_string()));
    assert_eq!(reg.lookup_name(3), Some("Unknown-3".to_string()));
    assert_eq!(reg.count(), 3);
    assert!(!reg.is_empty());
}

#[test]
fn default_name_renders_large_ids() {
    let mut reg = SessionRegistry::new();
    for _ in 0..12 {
        reg.register();
    }
    assert_eq!(reg.lookup_name(10), Some("Unknown-10".to_string()));
    assert_eq!(reg.lookup_name(12), Some("Unknown-12".to_string()));
    assert_eq!(axact::registry::default_name(0), "Unknown-0");
    assert_eq!(axact::registry::default_name(7), "Unknown-7");
    assert_eq!(axact::registry::default_name(409), "Unknown-409");
    assert_eq!(axact::registry::default_name(4294967295), "Unknown-4294967295");
}

#[test]
fn rename_overwrites_and_reports_change() {
    let mut reg = SessionRegistry::new();
    let id = reg.register();

    let changed = reg.rename(id, "Alice".to_string());
    assert!(changed);
    assert_eq!(reg.lookup_name(id), Some("Alice".to_string()));

    let changed_again = reg.rename(id, "Alice".to_string());
    assert!(!changed_again);
    assert_eq!(reg.lookup_name(id), Some("Alice".to_string()));
}

#[test]
fn rename_of_absent_id_is_a_noop() {
    let mut reg = SessionRegistry::new();
    let id = reg.register();

    let changed = reg.rename(99, "Mallory".to_string());
    assert!(!changed);
    assert_eq!(reg.lookup_name(99), None);
    assert_eq!(reg.lookup_name(id), Some("Unknown-1".to_string()));
    assert_eq!(reg.count(), 1);
}

#[test]
fn unregister_is_idempotent() {
    let mut reg = SessionRegistry::new();
    let a = reg.register();
    let b = reg.register();
    assert_eq!(reg.count(), 2);

    reg.unregister(a);
    assert_eq!(reg.count(), 1);
    assert_eq!(reg.lookup_name(a), None);
    assert_eq!(reg.lookup_name(b), Some("Unknown-2".to_string()));

    reg.unregister(a);
    assert_eq!(reg.count(), 1);

    reg.unregister(b);
    assert_eq!(reg.count(), 0);
    assert!(reg.is_empty());
}

#[test]
fn count_tracks_connects_and_disconnects() {
    let mut reg = SessionRegistry::new();
    let mut live = 0u32;
    let mut ids = Vec::new();

    for _ in 0..5 {
        ids.push(reg.register());
        live += 1;
        assert_eq!(reg.count(), live);
    }
    for id in [ids[1], ids[3]] {
        reg.unregister(id);
        live -= 1;
        assert_eq!(reg.count(), live);
    }
    // ids are never reused: new sessions continue after the highest ever
    let f = reg.register();
    assert_eq!(f, 6);
    assert_eq!(reg.count(), 4);
    // disconnect of an already-gone session changes nothing
    reg.unregister(ids[1]);
    assert_eq!(reg.count(), 4);
}
