//! The platform's threads as the mutex sees them, on a module with one thread: without
//! shared memory there is exactly one thread, which may not block, so there is nobody
//! to wait for and nobody to wake.

use vstd::prelude::*;
use core::sync::atomic::AtomicI32;

verus! {

/// The calling thread's identity: nonzero, and unique among live threads.
pub fn id() -> (me: usize)
    ensures
        me == 1,
{
    1
}

/// Whether the calling thread may sleep in `wait`: never, here.
pub fn can_block() -> (may: bool)
    ensures
        !may,
{
    false
}

/// Sleeps while `state` holds `expected`, until woken; with one thread nobody could
/// wake it, and `can_block` keeps it from being called, so it returns at once.
pub fn wait(_state: &AtomicI32, _expected: i32) {
}

/// Wakes one thread asleep on `state`; with one thread there is none.
pub fn wake_one(_state: &AtomicI32) {
}

} // verus!
