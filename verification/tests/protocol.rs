use lib::protocol::{
    after_spin, blocking_step, is_owner, keeps_lock, must_wake, poll_step, spin_step, start_step,
    try_outcome, Attempt, Phase, CONTENDED, FREE, LOCKED, SPINS,
};
use lib::thread::{can_block, id, wait, wake_one};
use std::sync::atomic::AtomicI32;

#[test]
fn lock_word_values() {
    assert_eq!((FREE, LOCKED, CONTENDED), (0, 1, 2));
    assert_eq!(SPINS, 100);
}

#[test]
fn after_spin_counts_then_switches() {
    assert_eq!(after_spin(0, true), Phase::Spinning { tries: 1 });
    assert_eq!(after_spin(SPINS - 2, false), Phase::Spinning { tries: SPINS - 1 });
    assert_eq!(after_spin(SPINS - 1, true), Phase::Blocking);
    assert_eq!(after_spin(SPINS - 1, false), Phase::Polling);
}

#[test]
fn leaving_keeps_the_lock_above_depth_one() {
    assert!(keeps_lock(2));
    assert!(keeps_lock(u32::MAX));
    assert!(!keeps_lock(1));
    assert!(!keeps_lock(0));
}

#[test]
fn only_a_contended_word_wakes() {
    assert!(must_wake(CONTENDED));
    assert!(!must_wake(LOCKED));
    assert!(!must_wake(FREE));
}

#[test]
fn single_thread_platform() {
    assert_eq!(id(), 1);
    assert!(!can_block());
    let word = AtomicI32::new(CONTENDED);
    wait(&word, CONTENDED);
    wake_one(&word);
}

#[test]
fn decisions_on_values_read() {
    assert!(is_owner(4, 4));
    assert!(!is_owner(0, 4));
    assert_eq!(start_step(4, 4), Attempt::Done);
    assert_eq!(start_step(5, 4), Attempt::Next(Phase::Spinning { tries: 0 }));
    assert_eq!(spin_step(true, true, 3, false), Attempt::Done);
    assert_eq!(spin_step(true, false, 3, false), Attempt::Next(Phase::Spinning { tries: 4 }));
    assert_eq!(spin_step(false, false, SPINS - 1, true), Attempt::Next(Phase::Blocking));
    assert_eq!(poll_step(true, true), Attempt::Done);
    assert_eq!(poll_step(false, false), Attempt::Next(Phase::Polling));
    assert_eq!(blocking_step(FREE), Attempt::Done);
    assert_eq!(blocking_step(LOCKED), Attempt::Sleep);
    assert_eq!(blocking_step(CONTENDED), Attempt::Sleep);
    assert!(try_outcome(true, false));
    assert!(try_outcome(false, true));
    assert!(!try_outcome(false, false));
}
