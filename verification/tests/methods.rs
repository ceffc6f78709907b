use lib::methods::{
    alloc_slot, held_status, notheld_status, try_status, Slot, StaticMutexes, SQLITE_BUSY,
    SQLITE_MUTEX_FAST, SQLITE_MUTEX_RECURSIVE, SQLITE_MUTEX_STATIC_MAIN, SQLITE_MUTEX_STATIC_VFS3,
    SQLITE_OK, STATIC_COUNT,
};

#[test]
fn dynamic_kinds_allocate() {
    assert_eq!(alloc_slot(SQLITE_MUTEX_FAST), Slot::Dynamic);
    assert_eq!(alloc_slot(SQLITE_MUTEX_RECURSIVE), Slot::Dynamic);
}

#[test]
fn static_kinds_name_their_own_slot() {
    assert_eq!(alloc_slot(SQLITE_MUTEX_STATIC_MAIN), Slot::Static(0));
    // SQLITE_MUTEX_STATIC_APP1
    assert_eq!(alloc_slot(8), Slot::Static(6));
    assert_eq!(alloc_slot(SQLITE_MUTEX_STATIC_VFS3), Slot::Static(STATIC_COUNT - 1));
    let mut seen = Vec::new();
    for kind in SQLITE_MUTEX_STATIC_MAIN..=SQLITE_MUTEX_STATIC_VFS3 {
        match alloc_slot(kind) {
            Slot::Static(index) => {
                assert!(index < STATIC_COUNT);
                assert!(!seen.contains(&index));
                seen.push(index);
            }
            other => panic!("kind {} gave {:?}", kind, other),
        }
    }
    assert_eq!(seen.len(), STATIC_COUNT);
}

#[test]
fn unknown_kinds_get_no_mutex() {
    assert_eq!(alloc_slot(SQLITE_MUTEX_STATIC_VFS3 + 1), Slot::Unsupported);
    assert_eq!(alloc_slot(-1), Slot::Unsupported);
    assert_eq!(alloc_slot(i32::MIN), Slot::Unsupported);
    assert_eq!(alloc_slot(i32::MAX), Slot::Unsupported);
}

#[test]
fn status_codes() {
    assert_eq!(try_status(true), SQLITE_OK);
    assert_eq!(try_status(false), SQLITE_BUSY);
    assert_eq!(SQLITE_BUSY, 5);
    assert_eq!(held_status(true), 1);
    assert_eq!(held_status(false), 0);
    assert_eq!(notheld_status(true), 0);
    assert_eq!(notheld_status(false), 1);
}

#[test]
fn static_table_holds_independent_mutexes() {
    let table = StaticMutexes::new();
    assert!(table.get(STATIC_COUNT - 1).is_some());
    assert!(table.get(STATIC_COUNT).is_none());
    let a = table.get(6).unwrap();
    let b = table.get(7).unwrap();
    assert!(a.try_enter(1).value);
    assert!(!a.try_enter(2).value);
    assert!(b.try_enter(2).value);
    assert!(!a.leave().value);
    assert!(!b.leave().value);
}

#[test]
fn static_table_gives_the_same_entry_each_time() {
    let table = StaticMutexes::new();
    assert!(table.get(3).unwrap().try_enter(1).value);
    // The same entry is held; its neighbour is not.
    assert!(!table.get(3).unwrap().try_enter(2).value);
    assert!(table.get(4).unwrap().try_enter(2).value);
    assert!(!table.get(3).unwrap().leave().value);
    assert!(!table.get(4).unwrap().leave().value);
}
