use lib::methods::{try_status, SQLITE_BUSY, SQLITE_OK};
use lib::mutex::Mutex;
use lib::protocol::{Attempt, Phase, SPINS};

/// Runs `enter` for `me` until it answers `Done`, never sleeping: the mutex must be
/// free or held by `me`.
fn enter_now(m: &Mutex, me: usize) {
    let mut phase = Phase::Start;
    for _ in 0..3 {
        match m.enter(me, phase, false).value {
            Attempt::Done => return,
            Attempt::Next(next) => phase = next,
            Attempt::Sleep => panic!("asked to sleep"),
        }
    }
    panic!("did not enter a free mutex");
}

#[test]
fn fresh_mutex_is_free() {
    let m = Mutex::new();
    assert!(!m.held(1).value);
    assert!(m.try_acquire().value);
    assert!(!m.try_acquire().value);
}

#[test]
fn enter_steps_on_a_free_mutex() {
    let m = Mutex::new();
    assert_eq!(m.enter(1, Phase::Start, true).value, Attempt::Next(Phase::Spinning { tries: 0 }));
    assert_eq!(m.enter(1, Phase::Spinning { tries: 0 }, true).value, Attempt::Done);
    assert!(m.held(1).value);
    assert!(!m.held(2).value);
    assert_eq!(m.enter(1, Phase::Start, true).value, Attempt::Done);
    assert!(!m.leave().value);
    assert!(m.held(1).value);
    assert!(!m.leave().value);
    assert!(!m.held(1).value);
}

#[test]
fn mutex_excludes_other_threads_and_recurses() {
    let m = Mutex::new();
    let (holder, prober) = (7, 9);
    enter_now(&m, holder);
    enter_now(&m, holder);
    assert_eq!(try_status(m.try_enter(prober).value), SQLITE_BUSY);
    assert!(!m.leave().value);
    // One level is still held.
    assert!(m.held(holder).value);
    assert!(!m.try_enter(prober).value);
    assert_eq!(m.acquire(Phase::Polling, false).value, Attempt::Next(Phase::Polling));
    assert!(!m.leave().value);
    enter_now(&m, prober);
    assert!(m.held(prober).value);
    assert!(!m.held(holder).value);
    assert!(!m.leave().value);
    assert_eq!(try_status(m.try_enter(prober).value), SQLITE_OK);
    assert!(!m.leave().value);
}

#[test]
fn try_enter_recurses_for_the_holder() {
    let m = Mutex::new();
    assert!(m.try_enter(3).value);
    assert!(m.try_enter(3).value);
    assert!(m.try_enter(3).value);
    assert!(!m.try_enter(4).value);
    assert!(!m.leave().value);
    assert!(!m.leave().value);
    assert!(m.held(3).value);
    assert!(!m.leave().value);
    assert!(!m.held(3).value);
    assert!(m.try_enter(4).value);
    assert!(!m.leave().value);
}

#[test]
fn recursion_balances_at_depth() {
    let m = Mutex::new();
    for _ in 0..50 {
        enter_now(&m, 5);
    }
    for _ in 0..49 {
        assert!(!m.leave().value);
        assert!(m.held(5).value);
    }
    assert!(!m.leave().value);
    assert!(!m.held(5).value);
    assert!(m.try_acquire().value);
}

#[test]
fn enter_then_leave_restores_a_free_mutex() {
    let m = Mutex::new();
    enter_now(&m, 2);
    assert!(!m.leave().value);
    assert!(!m.held(2).value);
    // Free again: any thread takes it at once, and nobody is woken.
    assert!(m.try_enter(8).value);
    assert!(!m.leave().value);
}

#[test]
fn a_sleeper_is_woken_by_the_leaving_holder() {
    let m = Mutex::new();
    enter_now(&m, 1);
    // Thread 2 takes the sleeping path and finds the mutex held.
    assert_eq!(m.enter(2, Phase::Blocking, true).value, Attempt::Sleep);
    // The word is now contended, so leaving asks to wake a sleeper.
    assert!(m.leave().value);
    // Woken, thread 2 takes the mutex as contended.
    assert_eq!(m.enter(2, Phase::Blocking, true).value, Attempt::Done);
    assert!(m.held(2).value);
    // Taken as contended, its own leave wakes later sleepers too.
    assert!(m.leave().value);
    assert!(!m.held(2).value);
}

#[test]
fn blocking_on_a_free_mutex_takes_it() {
    let m = Mutex::new();
    assert_eq!(m.acquire(Phase::Blocking, true).value, Attempt::Done);
    assert!(!m.try_acquire().value);
}

#[test]
fn spinning_runs_out_after_spins_tries() {
    let m = Mutex::new();
    enter_now(&m, 1);
    let mut phase = Phase::Start;
    let mut steps = 0;
    loop {
        match m.acquire(phase, true).value {
            Attempt::Next(Phase::Blocking) => break,
            Attempt::Next(next) => phase = next,
            other => panic!("unexpected {:?}", other),
        }
        steps += 1;
    }
    assert_eq!(steps, SPINS - 1);
    assert_eq!(m.acquire(Phase::Spinning { tries: 0 }, false).value, Attempt::Next(Phase::Spinning { tries: 1 }));
    assert_eq!(m.acquire(Phase::Spinning { tries: SPINS - 1 }, false).value, Attempt::Next(Phase::Polling));
    assert_eq!(m.acquire(Phase::Spinning { tries: SPINS - 1 }, true).value, Attempt::Next(Phase::Blocking));
}

#[test]
fn a_thread_that_may_not_block_never_sleeps() {
    let m = Mutex::new();
    enter_now(&m, 1);
    let mut phase = Phase::Start;
    for _ in 0..(3 * SPINS) {
        match m.enter(2, phase, false).value {
            Attempt::Next(next) => {
                assert_ne!(next, Phase::Blocking);
                phase = next;
            }
            other => panic!("unexpected {:?}", other),
        }
    }
    assert_eq!(phase, Phase::Polling);
    assert!(!m.leave().value);
    assert_eq!(m.enter(2, phase, false).value, Attempt::Done);
    assert!(m.held(2).value);
}

#[test]
fn lock_word_is_the_word_sleepers_wait_on() {
    let m = Mutex::new();
    enter_now(&m, 1);
    assert_eq!(m.enter(2, Phase::Blocking, true).value, Attempt::Sleep);
    assert_eq!(m.lock_word().load(std::sync::atomic::Ordering::SeqCst), 2);
    assert!(m.leave().value);
    assert_eq!(m.lock_word().load(std::sync::atomic::Ordering::SeqCst), 0);
}

#[test]
fn only_the_holder_gives_the_mutex_up() {
    let m = Mutex::new();
    enter_now(&m, 1);
    enter_now(&m, 1);
    assert!(!m.try_enter(2).value);
    assert_eq!(m.acquire(Phase::Start, true).value, Attempt::Next(Phase::Spinning { tries: 1 }));
    assert_eq!(m.enter(2, Phase::Blocking, true).value, Attempt::Sleep);
    assert_eq!(m.enter(2, Phase::Polling, false).value, Attempt::Next(Phase::Polling));
    assert!(!m.held(2).value);
    assert!(m.held(1).value);
    // Still two levels deep: the first leave keeps it.
    assert!(!m.leave().value);
    assert!(m.held(1).value);
    assert!(m.leave().value);
    assert!(!m.held(1).value);
}
