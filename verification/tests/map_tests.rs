use slock::Slock;
use slock::SlockMap;

/// Looking up an absent key finds nothing and creates nothing; one upsert
/// creates exactly one entry that later lookups find.
#[test]
fn absent_key_then_upsert() {
    let map: SlockMap<i32> = Slock::new_map();
    assert!(map.from_key(1).0.is_none());
    assert!(map.from_key(1).0.is_none());

    map.insert(1, |_| 10);
    let cell = map.from_key(1).0.unwrap();
    assert_eq!(cell.get().0, 10);
    assert!(map.from_key(2).0.is_none());
}

/// An upsert on a present key updates the inner cell in place: handles
/// handed out earlier see the new value.
#[test]
fn upsert_updates_in_place() {
    let map: SlockMap<i32> = Slock::new_map();
    map.insert(7, |_| 1);
    let before = map.from_key(7).0.unwrap();
    map.insert(7, |v| v.unwrap() + 5);
    assert_eq!(before.get().0, 6);
    assert_eq!(map.from_key(7).0.unwrap().get().0, 6);
}

/// The updater is told whether the key was present: `None` on first
/// insertion, `Some` with the current value afterwards.
#[test]
fn updater_sees_presence() {
    let map: SlockMap<i32> = Slock::new_map();
    map.insert(3, |v| match v {
        Some(_) => -1,
        None => 100,
    });
    assert_eq!(map.from_key(3).0.unwrap().get().0, 100);
    map.insert(3, |v| match v {
        Some(n) => n + 1,
        None => -1,
    });
    assert_eq!(map.from_key(3).0.unwrap().get().0, 101);
}

/// Entries under different keys live in different cells: mutating one
/// leaves the others alone.
#[test]
fn keys_are_independent() {
    let map: SlockMap<i32> = Slock::new_map();
    map.insert(1, |_| 11);
    map.insert(2, |_| 22);
    map.insert(1, |v| v.unwrap() * 10);
    assert_eq!(map.from_key(1).0.unwrap().get().0, 110);
    assert_eq!(map.from_key(2).0.unwrap().get().0, 22);
}
