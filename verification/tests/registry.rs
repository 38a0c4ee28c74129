use kv_actor::registry::SnapshotRegistry;

#[test]
fn registry_starts_empty_with_room() {
    let mut r: SnapshotRegistry<&str> = SnapshotRegistry::new();
    assert!(r.has_room());
    let h = r.register("first");
    assert_eq!(h.id(), 0);
}

#[test]
fn registry_resolves_live_handles_only() {
    let mut r: SnapshotRegistry<String> = SnapshotRegistry::new();
    let a = r.register("a".to_string());
    let b = r.register("b".to_string());
    assert_eq!(r.resolve(a), Some(&"a".to_string()));
    assert_eq!(r.resolve(b), Some(&"b".to_string()));
    r.release(a);
    assert_eq!(r.resolve(a), None);
    assert_eq!(r.resolve(b), Some(&"b".to_string()));
}

#[test]
fn registry_release_of_absent_handle_changes_nothing() {
    let mut r: SnapshotRegistry<u8> = SnapshotRegistry::new();
    let a = r.register(1);
    let b = r.register(2);
    r.release(a);
    r.release(a);
    assert_eq!(r.resolve(b), Some(&2));
    let c = r.register(3);
    assert_eq!(c.id(), 2);
    assert_eq!(r.resolve(a), None);
    assert_eq!(r.resolve(c), Some(&3));
}

#[test]
fn registry_counts_up_from_zero() {
    let mut r: SnapshotRegistry<usize> = SnapshotRegistry::new();
    for i in 0..100 {
        let h = r.register(i * 10);
        assert_eq!(h.id(), i);
        if i % 3 == 0 {
            r.release(h);
        }
    }
    assert!(r.has_room());
    for i in 0..100 {
        let mut probe: SnapshotRegistry<usize> = SnapshotRegistry::new();
        let mut h = probe.register(0);
        while h.id() < i {
            h = probe.register(0);
        }
        if i % 3 == 0 {
            assert_eq!(r.resolve(h), None);
        } else {
            assert_eq!(r.resolve(h), Some(&(i * 10)));
        }
    }
}
