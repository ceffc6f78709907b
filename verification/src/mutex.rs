//! A recursive mutex on three atomic words, as SQLite's mutex methods use it.
//!
//! Verus gives `core::sync::atomic` no values, so what the words hold cannot be stated.
//! Each operation instead returns, beside its answer, the record of its atomic
//! instructions (`crate::trace::Access`): what it handed each word and what each word
//! gave back. Its contract fixes that record instruction by instruction, and its answer
//! as a function of the values read (`crate::protocol`). `crate::model::lemma_access_is_step`
//! shows that each recorded write, made on a state whose values its reads saw, is the
//! corresponding step of the machine in `crate::model`, where exclusion and wake-ups are
//! proved.
//!
//! Acquiring loops without bound while other threads hold the mutex, so it is offered
//! one bounded step at a time: the caller repeats the step, and sleeps on the lock word
//! when a step asks it to.

use vstd::prelude::*;
use core::sync::atomic::{AtomicI32, AtomicU32, AtomicUsize, Ordering};
use crate::protocol::{
    acquire_outcome, blocking_step, enter_outcome, is_owner, keeps_lock, must_wake, phase_ok,
    poll_step, spin_step, start_step, try_outcome, Attempt, Phase, CONTENDED, FREE, LOCKED,
};
use crate::trace::{
    acquire_trace, claim_trace, enter_trace, held_trace, leave_trace, read_free, spin_took,
    spin_trace, try_acquire_trace, try_enter_trace, Access, Traced, Words,
};

verus! {

/// Hints to the processor that the thread is spinning (`core::hint::spin_loop`).
/// It only hints, and its contract states nothing.
#[verifier::external_body]
fn spin_hint() {
    core::hint::spin_loop()
}

/// `AtomicI32::compare_exchange` with acquire ordering on success: stores `new` if the
/// word holds `current`. As its documentation says, it answers `Ok` with the previous
/// value, which equals `current`, when it stored, and `Err` with the previous value,
/// which differs from `current`, when it did not. Which of the two comes back depends on
/// other threads and is not stated.
#[verifier::external_body]
fn compare_exchange_word(word: &AtomicI32, current: i32, new: i32) -> (r: Result<i32, i32>)
    ensures
        r matches Ok(prev) ==> prev == current,
        r matches Err(prev) ==> prev != current,
{
    word.compare_exchange(current, new, Ordering::Acquire, Ordering::Relaxed)
}

/// A recursive mutex: a lock word, the holder's thread identity, and the recursion depth.
pub struct Mutex {
    /// `FREE`, `LOCKED`, or `CONTENDED` when a thread may be asleep on it.
    state: AtomicI32,
    /// Holder's thread identity, zero when free.
    owner: AtomicUsize,
    /// Recursion depth, read and written only by the holder.
    depth: AtomicU32,
    /// The values the three words were created with.
    created: Ghost<Words>,
}

impl Mutex {
    /// The values that the three words were created with.
    pub closed spec fn created(&self) -> Words {
        self.created@
    }

    /// A free mutex: the lock word `FREE`, no owner, depth zero (the words of
    /// `crate::model::initial`).
    pub fn new() -> (m: Mutex)
        ensures
            m.created() == (Words { state: FREE, owner: 0, depth: 0 }),
    {
        let state: i32 = FREE;
        let owner: usize = 0;
        let depth: u32 = 0;
        Mutex {
            state: AtomicI32::new(state),
            owner: AtomicUsize::new(owner),
            depth: AtomicU32::new(depth),
            created: Ghost(Words { state, owner, depth }),
        }
    }

    /// The mutex's lock word (`FREE`, `LOCKED` or `CONTENDED`), as a value.
    pub closed spec fn word(&self) -> AtomicI32 {
        self.state
    }

    /// The lock word, on which a thread sleeps after `Attempt::Sleep` and which a
    /// thread wakes after `leave` answered `true`.
    pub fn lock_word(&self) -> (word: &AtomicI32)
        ensures
            *word == self.word(),
    {
        &self.state
    }

    /// One step of entering the mutex for thread `me` (a nonzero identity unique among
    /// live threads).
    ///
    /// From `Phase::Start` it reads the owner word, and when it names `me` deepens the
    /// mutex by one level (`Done`); otherwise it answers `Next(Spinning)`. From the other
    /// phases it is a step of `acquire`, after whose success it stores `me` as owner at
    /// depth one.
    pub fn enter(&self, me: usize, phase: Phase, can_block: bool) -> (r: Traced<Attempt>)
        requires
            phase_ok(phase),
        ensures
            enter_trace(me, phase, can_block, r.accesses@, r.value),
            enter_outcome(phase, can_block, r.value),
            r.value matches Attempt::Next(next) ==> phase_ok(next),
    {
        match phase {
            Phase::Start => {
                let (owner, load) = self.load_owner();
                let r = start_step(owner, me);
                if r == Attempt::Done {
                    let add = self.add_depth();
                    Traced { value: r, accesses: Ghost(Seq::empty().push(load@).push(add@)) }
                } else {
                    Traced { value: r, accesses: Ghost(Seq::empty().push(load@)) }
                }
            },
            _ => {
                let step = self.acquire(phase, can_block);
                if step.value == Attempt::Done {
                    let claim = self.claim(me);
                    let ghost accs = step.accesses@ + claim@;
                    proof {
                        assert(accs.subrange(0, accs.len() - 2) =~= step.accesses@);
                        assert(accs.subrange(accs.len() - 2, accs.len() as int) =~= claim@);
                    }
                    Traced { value: step.value, accesses: Ghost(accs) }
                } else {
                    step
                }
            },
        }
    }

    /// Tries once to enter the mutex for thread `me`, without waiting: deepens it when
    /// the owner word names `me`, and otherwise answers whether `try_acquire` took the
    /// word, claiming it when it did.
    pub fn try_enter(&self, me: usize) -> (entered: Traced<bool>)
        ensures
            try_enter_trace(me, entered.accesses@, entered.value),
    {
        let (owner, load) = self.load_owner();
        let owner_is_me = is_owner(owner, me);
        if owner_is_me {
            let add = self.add_depth();
            Traced { value: try_outcome(true, false), accesses: Ghost(Seq::empty().push(load@).push(add@)) }
        } else {
            let take = self.try_acquire();
            if take.value {
                let claim = self.claim(me);
                let ghost accs = Seq::empty().push(load@) + take.accesses@ + claim@;
                proof {
                    assert(accs.subrange(2, 4) =~= claim@);
                }
                Traced { value: try_outcome(false, take.value), accesses: Ghost(accs) }
            } else {
                Traced {
                    value: try_outcome(false, take.value),
                    accesses: Ghost(Seq::empty().push(load@) + take.accesses@),
                }
            }
        }
    }

    /// Leaves one level of the mutex, which the calling thread holds. At the last level
    /// it clears the owner and frees the word, and answers whether a sleeper must be
    /// woken: whether the word was `CONTENDED`.
    pub fn leave(&self) -> (wake: Traced<bool>)
        ensures
            leave_trace(wake.accesses@, wake.value),
    {
        let (from, sub) = self.sub_depth();
        if keeps_lock(from) {
            return Traced { value: false, accesses: Ghost(Seq::empty().push(sub@)) };
        }
        let clear = self.store_owner(0);
        let (prev, swap) = self.swap_state(FREE, Ordering::Release);
        Traced { value: must_wake(prev), accesses: Ghost(Seq::empty().push(sub@).push(clear@).push(swap@)) }
    }

    /// Whether the owner word, as read, names thread `me`.
    pub fn held(&self, me: usize) -> (r: Traced<bool>)
        ensures
            held_trace(me, r.accesses@, r.value),
    {
        let (owner, load) = self.load_owner();
        Traced { value: is_owner(owner, me), accesses: Ghost(Seq::empty().push(load@)) }
    }

    /// Takes the lock word from `FREE` to `LOCKED` in one compare-and-swap, and answers
    /// whether it did.
    pub fn try_acquire(&self) -> (taken: Traced<bool>)
        ensures
            try_acquire_trace(taken.accesses@, taken.value),
    {
        let (result, cas) = self.cas_state(FREE, LOCKED);
        Traced { value: result.is_ok(), accesses: Ghost(Seq::empty().push(cas@)) }
    }

    /// One step of taking the lock word.
    ///
    /// Spinning (from `Start` or `Spinning`), it takes the word if it reads `FREE`,
    /// and otherwise hints a spin and moves on as `after_spin` says. Blocking, it
    /// swaps in `CONTENDED`, so that the leaving holder wakes a sleeper, and answers
    /// `Done` if the word was `FREE` and `Sleep` otherwise. Polling, it spins as
    /// before and stays polling.
    pub fn acquire(&self, phase: Phase, can_block: bool) -> (r: Traced<Attempt>)
        requires
            phase_ok(phase),
        ensures
            acquire_trace(phase, can_block, r.accesses@, r.value),
            acquire_outcome(phase, can_block, r.value),
            r.value matches Attempt::Next(next) ==> phase_ok(next),
    {
        match phase {
            Phase::Blocking => {
                let (prev, swap) = self.swap_state(CONTENDED, Ordering::Acquire);
                Traced { value: blocking_step(prev), accesses: Ghost(Seq::empty().push(swap@)) }
            },
            Phase::Polling => {
                let (read_free, taken, accs) = self.spin_once();
                let r = poll_step(read_free, taken);
                if r != Attempt::Done {
                    spin_hint();
                }
                Traced { value: r, accesses: accs }
            },
            _ => {
                let tries: u32 = match phase {
                    Phase::Spinning { tries } => tries,
                    _ => 0,
                };
                let (read_free, taken, accs) = self.spin_once();
                let r = spin_step(read_free, taken, tries, can_block);
                if r != Attempt::Done {
                    spin_hint();
                }
                Traced { value: r, accesses: accs }
            },
        }
    }

    /// Loads the word and, only when it read `FREE`, tries to take it.
    fn spin_once(&self) -> (r: (bool, bool, Ghost<Seq<Access>>))
        ensures
            spin_trace(r.2@),
            r.0 == read_free(r.2@),
            r.1 == (r.0 && spin_took(r.2@)),
    {
        let (word, load) = self.load_state();
        if word == FREE {
            let take = self.try_acquire();
            let ghost accs = Seq::empty().push(load@) + take.accesses@;
            proof {
                assert(accs =~= Seq::empty().push(load@).push(take.accesses@[0]));
            }
            (true, take.value, Ghost(accs))
        } else {
            (false, false, Ghost(Seq::empty().push(load@)))
        }
    }

    /// Records thread `me` as the owner at depth one, once it took the lock word.
    fn claim(&self, me: usize) -> (r: Ghost<Seq<Access>>)
        ensures
            r@ == claim_trace(me),
    {
        let owner = self.store_owner(me);
        let depth = self.store_depth(1);
        let ghost accs = Seq::empty().push(owner@).push(depth@);
        proof {
            assert(accs =~= claim_trace(me));
        }
        Ghost(accs)
    }

    fn load_state(&self) -> (r: (i32, Ghost<Access>))
        ensures
            r.1@ == (Access::LoadState { word: r.0 }),
    {
        let word = self.state.load(Ordering::Relaxed);
        (word, Ghost(Access::LoadState { word }))
    }

    fn cas_state(&self, current: i32, new: i32) -> (r: (Result<i32, i32>, Ghost<Access>))
        ensures
            r.1@ == (Access::CasState { current, new, result: r.0 }),
            r.0 matches Ok(prev) ==> prev == current,
            r.0 matches Err(prev) ==> prev != current,
    {
        let result = compare_exchange_word(&self.state, current, new);
        (result, Ghost(Access::CasState { current, new, result }))
    }

    fn swap_state(&self, put: i32, order: Ordering) -> (r: (i32, Ghost<Access>))
        ensures
            r.1@ == (Access::SwapState { put, prev: r.0 }),
    {
        let prev = self.state.swap(put, order);
        (prev, Ghost(Access::SwapState { put, prev }))
    }

    fn load_owner(&self) -> (r: (usize, Ghost<Access>))
        ensures
            r.1@ == (Access::LoadOwner { owner: r.0 }),
    {
        let owner = self.owner.load(Ordering::Relaxed);
        (owner, Ghost(Access::LoadOwner { owner }))
    }

    fn store_owner(&self, stored: usize) -> (r: Ghost<Access>)
        ensures
            r@ == (Access::StoreOwner { stored }),
    {
        self.owner.store(stored, Ordering::Relaxed);
        Ghost(Access::StoreOwner { stored })
    }

    fn add_depth(&self) -> (r: Ghost<Access>)
        ensures
            r@ is AddDepth,
    {
        let before = self.depth.fetch_add(1, Ordering::Relaxed);
        Ghost(Access::AddDepth { before })
    }

    fn sub_depth(&self) -> (r: (u32, Ghost<Access>))
        ensures
            r.1@ == (Access::SubDepth { from: r.0 }),
    {
        let from = self.depth.fetch_sub(1, Ordering::Relaxed);
        (from, Ghost(Access::SubDepth { from }))
    }

    fn store_depth(&self, depth: u32) -> (r: Ghost<Access>)
        ensures
            r@ == (Access::StoreDepth { depth }),
    {
        self.depth.store(depth, Ordering::Relaxed);
        Ghost(Access::StoreDepth { depth })
    }
}

} // verus!
