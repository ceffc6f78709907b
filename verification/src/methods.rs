//! What SQLite's mutex methods decide: which mutex an allocation request names, and
//! the status codes that answer its calls.

use vstd::prelude::*;
use crate::mutex::Mutex;
use crate::protocol::FREE;
use crate::trace::Words;

verus! {

/// SQLite's success code.
pub const SQLITE_OK: i32 = 0;

/// SQLite's code for a resource that another thread holds.
pub const SQLITE_BUSY: i32 = 5;

/// Allocation request for a new non-recursive mutex.
pub const SQLITE_MUTEX_FAST: i32 = 0;

/// Allocation request for a new recursive mutex.
pub const SQLITE_MUTEX_RECURSIVE: i32 = 1;

/// The first of SQLite's static mutexes.
pub const SQLITE_MUTEX_STATIC_MAIN: i32 = 2;

/// The last of SQLite's static mutexes.
pub const SQLITE_MUTEX_STATIC_VFS3: i32 = 13;

/// The number of static mutexes, from `SQLITE_MUTEX_STATIC_MAIN` to
/// `SQLITE_MUTEX_STATIC_VFS3`.
pub const STATIC_COUNT: usize = 12;

/// Which mutex an allocation request names.
#[derive(PartialEq, Eq, Structural, Clone, Copy, Debug)]
pub enum Slot {
    /// A new mutex, allocated for the caller (the fast and the recursive kinds are one).
    Dynamic,
    /// The static mutex at this index, shared by every caller of the kind.
    Static(usize),
    /// No mutex: SQLite receives a null pointer.
    Unsupported,
}

/// The mutex that a request of `kind` names.
pub open spec fn spec_slot(kind: i32) -> Slot {
    if kind == SQLITE_MUTEX_FAST || kind == SQLITE_MUTEX_RECURSIVE {
        Slot::Dynamic
    } else if SQLITE_MUTEX_STATIC_MAIN <= kind <= SQLITE_MUTEX_STATIC_VFS3 {
        Slot::Static((kind - SQLITE_MUTEX_STATIC_MAIN) as usize)
    } else {
        Slot::Unsupported
    }
}

/// Maps an allocation request to its mutex: the fast and recursive kinds to a new
/// mutex, each static kind to its own entry of the static table, anything else to none.
pub fn alloc_slot(kind: i32) -> (slot: Slot)
    ensures
        slot == spec_slot(kind),
        slot matches Slot::Static(index) ==> index < STATIC_COUNT,
{
    if kind == SQLITE_MUTEX_FAST || kind == SQLITE_MUTEX_RECURSIVE {
        Slot::Dynamic
    } else if SQLITE_MUTEX_STATIC_MAIN <= kind && kind <= SQLITE_MUTEX_STATIC_VFS3 {
        let offset: i32 = kind - SQLITE_MUTEX_STATIC_MAIN;
        Slot::Static(offset as usize)
    } else {
        Slot::Unsupported
    }
}

/// The answer to `xMutexTry`: `SQLITE_OK` when the mutex was entered, `SQLITE_BUSY`
/// when another thread holds it.
pub fn try_status(entered: bool) -> (code: i32)
    ensures
        code == (if entered { SQLITE_OK } else { SQLITE_BUSY }),
{
    if entered {
        SQLITE_OK
    } else {
        SQLITE_BUSY
    }
}

/// The answer to `xMutexHeld`: one when the calling thread holds the mutex, zero otherwise.
pub fn held_status(held: bool) -> (code: i32)
    ensures
        code == (if held { 1i32 } else { 0i32 }),
{
    if held {
        1
    } else {
        0
    }
}

/// The answer to `xMutexNotheld`: one when the calling thread does not hold the mutex.
pub fn notheld_status(held: bool) -> (code: i32)
    ensures
        code == (if held { 0i32 } else { 1i32 }),
{
    if held {
        0
    } else {
        1
    }
}

/// The static mutexes, one per static kind, alive as long as the program.
pub struct StaticMutexes {
    slots: Vec<Mutex>,
}

impl StaticMutexes {
    /// The number of mutexes in the table.
    pub closed spec fn count(&self) -> nat {
        self.slots@.len()
    }

    /// The mutex at `index` of the table.
    pub closed spec fn entry(&self, index: int) -> Mutex {
        self.slots@[index]
    }

    /// A table of `STATIC_COUNT` fresh, free mutexes.
    pub fn new() -> (table: StaticMutexes)
        ensures
            table.count() == STATIC_COUNT,
            forall|i: int|
                0 <= i < STATIC_COUNT ==> #[trigger] table.entry(i).created() == (Words {
                    state: FREE,
                    owner: 0,
                    depth: 0,
                }),
    {
        let mut slots: Vec<Mutex> = Vec::new();
        while slots.len() < STATIC_COUNT
            invariant
                slots@.len() <= STATIC_COUNT,
                forall|i: int|
                    0 <= i < slots@.len() ==> #[trigger] slots@[i].created() == (Words {
                        state: FREE,
                        owner: 0,
                        depth: 0,
                    }),
            decreases STATIC_COUNT - slots@.len(),
        {
            slots.push(Mutex::new());
        }
        StaticMutexes { slots }
    }

    /// The mutex at `index`, if the table has one there.
    pub fn get(&self, index: usize) -> (m: Option<&Mutex>)
        ensures
            m is Some == (index < self.count()),
            m matches Some(e) ==> *e == self.entry(index as int),
    {
        if index < self.slots.len() {
            Some(&self.slots[index])
        } else {
            None
        }
    }
}

/// Every static kind names its own entry of the table, and the entries fill it.
pub proof fn lemma_static_slots_distinct(a: i32, b: i32)
    requires
        spec_slot(a) is Static,
        spec_slot(a) == spec_slot(b),
    ensures
        a == b,
        STATIC_COUNT == SQLITE_MUTEX_STATIC_VFS3 - SQLITE_MUTEX_STATIC_MAIN + 1,
{
}

} // verus!
