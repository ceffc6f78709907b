//! The lock word, the phases of acquiring it, and the decisions that the operations
//! of the mutex take on the values they read from shared memory: each is a function
//! of those values, and the mutex answers what it answers.

use vstd::prelude::*;

verus! {

/// Lock word of a free mutex.
pub const FREE: i32 = 0;

/// Lock word of a held mutex on which no thread sleeps.
pub const LOCKED: i32 = 1;

/// Lock word of a held mutex on which a thread may be asleep.
pub const CONTENDED: i32 = 2;

/// Tries spent spinning before a thread that may block goes to sleep; enough to
/// cover most of SQLite's short critical sections.
pub const SPINS: u32 = 100;

/// The three values that the lock word takes.
pub open spec fn valid_word(word: i32) -> bool {
    word == FREE || word == LOCKED || word == CONTENDED
}

/// Where a thread stands in acquiring a mutex.
#[derive(PartialEq, Eq, Structural, Clone, Copy, Debug)]
pub enum Phase {
    /// Nothing done yet.
    Start,
    /// Spinning, after `tries` failed tries.
    Spinning { tries: u32 },
    /// Taking the word as `CONTENDED`, sleeping while another thread holds it.
    Blocking,
    /// Spinning for good: the thread may not block.
    Polling,
}

/// What one step of acquiring asks of its caller.
#[derive(PartialEq, Eq, Structural, Clone, Copy, Debug)]
pub enum Attempt {
    /// The step succeeded: the mutex is taken.
    Done,
    /// Call again in this phase.
    Next(Phase),
    /// Sleep on the lock word while it is `CONTENDED`, then call again in `Phase::Blocking`.
    Sleep,
}

/// A phase that a caller may hand to a step: a spin count stays below `SPINS`.
pub open spec fn phase_ok(phase: Phase) -> bool {
    phase matches Phase::Spinning { tries } ==> tries < SPINS
}

/// The phase that follows a failed spin after `tries` earlier failures.
pub open spec fn spec_after_spin(tries: u32, can_block: bool) -> Phase {
    if tries + 1 < SPINS {
        Phase::Spinning { tries: (tries + 1) as u32 }
    } else if can_block {
        Phase::Blocking
    } else {
        Phase::Polling
    }
}

/// The phase that follows a failed spin: spin again, or, after `SPINS` tries,
/// sleep where the thread may block and spin for good where it may not.
pub fn after_spin(tries: u32, can_block: bool) -> (next: Phase)
    requires
        tries < SPINS,
    ensures
        next == spec_after_spin(tries, can_block),
        phase_ok(next),
{
    if tries + 1 < SPINS {
        Phase::Spinning { tries: tries + 1 }
    } else if can_block {
        Phase::Blocking
    } else {
        Phase::Polling
    }
}

/// What one step of acquiring may answer from `phase`, whatever the other threads did:
/// success, or the single way onwards that the phase allows.
pub open spec fn acquire_outcome(phase: Phase, can_block: bool, r: Attempt) -> bool {
    r is Done || match phase {
        Phase::Start => r == Attempt::Next(spec_after_spin(0, can_block)),
        Phase::Spinning { tries } => r == Attempt::Next(spec_after_spin(tries, can_block)),
        Phase::Blocking => r is Sleep,
        Phase::Polling => r == Attempt::Next(Phase::Polling),
    }
}

/// What one step of entering may answer: from `Start` it only checks whether the
/// thread holds the mutex already, and otherwise starts spinning.
pub open spec fn enter_outcome(phase: Phase, can_block: bool, r: Attempt) -> bool {
    match phase {
        Phase::Start => r is Done || r == Attempt::Next(Phase::Spinning { tries: 0 }),
        _ => acquire_outcome(phase, can_block, r),
    }
}

/// Whether an owner word that reads `owner_read` names thread `me`.
pub open spec fn spec_is_owner(owner_read: usize, me: usize) -> bool {
    owner_read == me
}

/// Whether the owner word, read as `owner_read`, names thread `me`: what `held` answers.
pub fn is_owner(owner_read: usize, me: usize) -> (owner: bool)
    ensures
        owner == spec_is_owner(owner_read, me),
{
    owner_read == me
}

/// The first step of entering, after reading the owner word as `owner_read`.
pub open spec fn spec_start_step(owner_read: usize, me: usize) -> Attempt {
    if spec_is_owner(owner_read, me) {
        Attempt::Done
    } else {
        Attempt::Next(Phase::Spinning { tries: 0 })
    }
}

/// The first step of entering: done at once (one level deeper) when the owner word
/// read names `me`, and otherwise on to spinning.
pub fn start_step(owner_read: usize, me: usize) -> (r: Attempt)
    ensures
        r == spec_start_step(owner_read, me),
{
    if is_owner(owner_read, me) {
        Attempt::Done
    } else {
        Attempt::Next(Phase::Spinning { tries: 0 })
    }
}

/// A spin after `tries` failures: `read_free` whether the word read `FREE`, `taken`
/// whether the compare-and-swap that follows such a read then took it.
pub open spec fn spec_spin_step(read_free: bool, taken: bool, tries: u32, can_block: bool) -> Attempt {
    if read_free && taken {
        Attempt::Done
    } else {
        Attempt::Next(spec_after_spin(tries, can_block))
    }
}

/// A spin's answer: done only when the word read `FREE` and this thread's
/// compare-and-swap took it; otherwise the phase that `after_spin` gives.
pub fn spin_step(read_free: bool, taken: bool, tries: u32, can_block: bool) -> (r: Attempt)
    requires
        tries < SPINS,
    ensures
        r == spec_spin_step(read_free, taken, tries, can_block),
{
    if read_free && taken {
        Attempt::Done
    } else {
        Attempt::Next(after_spin(tries, can_block))
    }
}

/// A poll's answer, from the same two observations as a spin.
pub open spec fn spec_poll_step(read_free: bool, taken: bool) -> Attempt {
    if read_free && taken {
        Attempt::Done
    } else {
        Attempt::Next(Phase::Polling)
    }
}

/// A poll's answer: done only when the word read `FREE` and this thread's
/// compare-and-swap took it; otherwise poll again.
pub fn poll_step(read_free: bool, taken: bool) -> (r: Attempt)
    ensures
        r == spec_poll_step(read_free, taken),
{
    if read_free && taken {
        Attempt::Done
    } else {
        Attempt::Next(Phase::Polling)
    }
}

/// The sleeping loop's answer after swapping `CONTENDED` into a word that held `prev_word`.
pub open spec fn spec_blocking_step(prev_word: i32) -> Attempt {
    if prev_word == FREE {
        Attempt::Done
    } else {
        Attempt::Sleep
    }
}

/// The sleeping loop's answer: done when the swap took a `FREE` word, so that this
/// thread now holds it as `CONTENDED`; otherwise sleep.
pub fn blocking_step(prev_word: i32) -> (r: Attempt)
    ensures
        r == spec_blocking_step(prev_word),
{
    if prev_word == FREE {
        Attempt::Done
    } else {
        Attempt::Sleep
    }
}

/// What a try to enter answers: `owner_is_me` whether the owner word named the caller,
/// `taken` whether its compare-and-swap took the word.
pub open spec fn spec_try_outcome(owner_is_me: bool, taken: bool) -> bool {
    owner_is_me || taken
}

/// A try to enter succeeds when the caller held the mutex already or took its word.
pub fn try_outcome(owner_is_me: bool, taken: bool) -> (entered: bool)
    ensures
        entered == spec_try_outcome(owner_is_me, taken),
{
    owner_is_me || taken
}

/// Whether a thread keeps the mutex after dropping one level, given the depth before.
pub open spec fn spec_keeps_lock(prev_depth: u32) -> bool {
    prev_depth > 1
}

/// Whether leaving one level, from `prev_depth`, leaves the mutex held.
pub fn keeps_lock(prev_depth: u32) -> (keep: bool)
    ensures
        keep == spec_keeps_lock(prev_depth),
{
    prev_depth > 1
}

/// Whether a thread that frees the word, which held `prev_word`, must wake a sleeper.
pub open spec fn spec_must_wake(prev_word: i32) -> bool {
    prev_word == CONTENDED
}

/// Whether freeing the lock word, which held `prev_word`, must wake a sleeper.
pub fn must_wake(prev_word: i32) -> (wake: bool)
    ensures
        wake == spec_must_wake(prev_word),
{
    prev_word == CONTENDED
}

/// A thread that may not block (the browser main thread) is never asked to sleep:
/// from any phase but `Blocking`, a step answers neither `Sleep` nor a move to `Blocking`.
pub proof fn lemma_never_sleeps_without_blocking(phase: Phase, r: Attempt)
    requires
        !(phase is Blocking),
        enter_outcome(phase, false, r) || acquire_outcome(phase, false, r),
    ensures
        !(r is Sleep),
        r matches Attempt::Next(next) ==> !(next is Blocking),
{
}

/// Spinning is bounded: each failed spin adds one try, and the thread stops spinning
/// once `SPINS` tries have failed.
pub proof fn lemma_spinning_is_bounded(tries: u32, can_block: bool)
    requires
        tries < SPINS,
    ensures
        spec_after_spin(tries, can_block) matches Phase::Spinning { tries: more } ==> more
            == tries + 1 && more < SPINS,
        !(spec_after_spin(tries, can_block) is Spinning) ==> tries + 1 == SPINS,
{
}

/// A spin stops exactly when it took the word: at every spin count and whether or not
/// the thread may block, it answers `Done` when its load read `FREE` and its own
/// compare-and-swap succeeded, and otherwise moves on without claiming the mutex.
pub proof fn lemma_spin_done_iff_took(read_free: bool, taken: bool, tries: u32, can_block: bool)
    requires
        tries < SPINS,
    ensures
        (spec_spin_step(read_free, taken, tries, can_block) == Attempt::Done) == (read_free
            && taken),
        !(read_free && taken) ==> spec_spin_step(read_free, taken, tries, can_block) is Next,
{
}

/// A poll stops exactly when it took the word: `Done` when its load read `FREE` and its
/// own compare-and-swap succeeded; otherwise, even when another thread won the word
/// after the load read `FREE`, it polls again.
pub proof fn lemma_poll_done_iff_took(read_free: bool, taken: bool)
    ensures
        (spec_poll_step(read_free, taken) == Attempt::Done) == (read_free && taken),
        !(read_free && taken) ==> spec_poll_step(read_free, taken) == Attempt::Next(
            Phase::Polling,
        ),
{
}

/// The sleeping loop stops exactly when its swap took a `FREE` word; on a held word,
/// whether `LOCKED` or `CONTENDED`, it sleeps.
pub proof fn lemma_blocking_done_iff_free(prev_word: i32)
    ensures
        (spec_blocking_step(prev_word) == Attempt::Done) == (prev_word == FREE),
        prev_word != FREE ==> spec_blocking_step(prev_word) is Sleep,
{
}

} // verus!
