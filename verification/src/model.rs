//! The lock protocol as a machine: the three shared words and, for every thread, where
//! it stands between two of its atomic instructions. Every write that an operation of
//! `Mutex` records (`crate::trace::Access`) is one of the steps below: made on a state
//! whose values its reads saw, it leaves the words as the step does
//! (`lemma_access_is_step`); loads are the guards between steps. The steps decide by the
//! same functions of the values read as the code (`spec_blocking_step`,
//! `spec_keeps_lock`, ...). Any interleaving of the threads' steps keeps `inv`, from
//! which mutual exclusion, truthful ownership, balanced recursion and wake-ups follow.
//! Where each thread stands is bookkeeping of the machine alone: the code records
//! no such place.

use vstd::prelude::*;
use crate::protocol::{
    spec_blocking_step, spec_is_owner, spec_keeps_lock, spec_must_wake, spec_poll_step,
    spec_start_step, spec_try_outcome, valid_word, Attempt, Phase, CONTENDED, FREE, LOCKED,
};
use crate::trace::{leave_trace, Access};

verus! {

/// Where a thread stands in the protocol.
pub enum Pc {
    /// Outside the mutex, or spinning on it with compare-and-swap.
    Idle,
    /// In the sleeping loop, about to swap `CONTENDED` into the word.
    Blocking,
    /// Swapped in `CONTENDED` and found the mutex held; about to wait on the word.
    Waiting,
    /// Asleep on the word until a leaving holder wakes it.
    Asleep,
    /// Took the word; the owner is not stored yet.
    Acquired,
    /// Stored itself as owner; the depth is not set yet.
    Claimed,
    /// Holds the mutex.
    Holding,
    /// Left its last level; the owner is not cleared yet.
    Releasing,
    /// Cleared the owner; the word is not freed yet.
    Unlocking,
    /// Freed a `CONTENDED` word; about to wake one sleeper.
    Waking,
}

/// The shared words of one mutex and the place of every thread, by identity.
#[verifier::ext_equal]
pub struct Machine {
    pub state: i32,
    pub owner: usize,
    pub depth: u32,
    pub pcs: spec_fn(usize) -> Pc,
}

/// One atomic step of a thread.
pub enum Op {
    /// `enter` or `try_enter` by the holder: the owner reads as itself, and the depth
    /// grows by one.
    Reenter,
    /// A spin's compare-and-swap from `FREE` to `LOCKED`.
    TryAcquire,
    /// Spinning is over and the thread may block: it enters the sleeping loop.
    BeginBlocking,
    /// The sleeping loop's swap of `CONTENDED` into the word.
    SwapContended,
    /// The wait on the word, which sleeps only while the word is `CONTENDED`.
    Wait,
    /// The owner store after the word is taken.
    StoreOwner,
    /// The depth store of one, which completes entering.
    StoreDepth,
    /// `leave`'s decrement of the depth.
    LeaveDepth,
    /// `leave`'s clearing of the owner after the last level.
    ClearOwner,
    /// `leave`'s swap of `FREE` into the word.
    ReleaseWord,
    /// The wake-up after freeing a `CONTENDED` word, which wakes `woken` if it sleeps.
    Wake { woken: usize },
}

/// The place of thread `t`.
pub open spec fn pc(s: Machine, t: usize) -> Pc {
    (s.pcs)(t)
}

/// `s` with thread `t` moved to `p`.
pub open spec fn set_pc(s: Machine, t: usize, p: Pc) -> Machine {
    Machine { pcs: |u: usize| if u == t { p } else { (s.pcs)(u) }, ..s }
}

/// A fresh mutex: word `FREE`, no owner, depth zero, every thread outside.
pub open spec fn initial() -> Machine {
    Machine { state: FREE, owner: 0, depth: 0, pcs: |t: usize| Pc::Idle }
}

/// A thread at `p` has taken the word and not yet freed it.
pub open spec fn holds(p: Pc) -> bool {
    p is Acquired || p is Claimed || p is Holding || p is Releasing || p is Unlocking
}

/// A thread at `p` is the recorded owner.
pub open spec fn owns(p: Pc) -> bool {
    p is Claimed || p is Holding || p is Releasing
}

/// A thread at `p` is awake on the sleeping side: in the sleeping loop and not asleep,
/// or about to wake a sleeper.
pub open spec fn awake(p: Pc) -> bool {
    p is Blocking || p is Waiting || p is Waking
}

pub open spec fn someone_holds(s: Machine) -> bool {
    exists|t: usize| holds(#[trigger] pc(s, t))
}

pub open spec fn someone_asleep(s: Machine) -> bool {
    exists|t: usize| #[trigger] pc(s, t) is Asleep
}

pub open spec fn someone_awake(s: Machine) -> bool {
    exists|t: usize| awake(#[trigger] pc(s, t))
}

/// At most one thread holds the word.
pub open spec fn exclusive(s: Machine) -> bool {
    forall|t1: usize, t2: usize|
        #![trigger pc(s, t1), pc(s, t2)]
        holds(pc(s, t1)) && holds(pc(s, t2)) ==> t1 == t2
}

/// The recorded owner is exactly the thread between its owner store and owner clear.
pub open spec fn owner_recorded(s: Machine) -> bool {
    forall|t: usize| #![trigger pc(s, t)] t != 0 ==> (owns(pc(s, t)) == (s.owner == t))
}

/// The depth is positive while a thread holds the mutex, and zero otherwise.
pub open spec fn depth_counted(s: Machine) -> bool {
    &&& forall|t: usize| #![trigger pc(s, t)] pc(s, t) is Holding ==> s.depth >= 1
    &&& s.depth != 0 ==> exists|t: usize| #[trigger] pc(s, t) is Holding
}

/// No wake-up is lost: while a thread sleeps, the word is `CONTENDED`, so that the
/// leaving holder wakes a sleeper, or some thread of the sleeping side is awake.
pub open spec fn sleepers_wakeable(s: Machine) -> bool {
    someone_asleep(s) ==> (s.state == CONTENDED || someone_awake(s))
}

/// What every reachable state of the protocol satisfies.
pub open spec fn inv(s: Machine) -> bool {
    &&& valid_word(s.state)
    &&& pc(s, 0) is Idle
    &&& exclusive(s)
    &&& (s.state == FREE) == !someone_holds(s)
    &&& owner_recorded(s)
    &&& depth_counted(s)
    &&& sleepers_wakeable(s)
}

/// Whether thread `t` may take step `op` in `s`.
pub open spec fn enabled(s: Machine, t: usize, op: Op) -> bool {
    &&& t != 0
    &&& match op {
        Op::Reenter => pc(s, t) is Holding && s.depth < u32::MAX,
        Op::TryAcquire => pc(s, t) is Idle,
        Op::BeginBlocking => pc(s, t) is Idle,
        Op::SwapContended => pc(s, t) is Blocking,
        Op::Wait => pc(s, t) is Waiting,
        Op::StoreOwner => pc(s, t) is Acquired,
        Op::StoreDepth => pc(s, t) is Claimed,
        Op::LeaveDepth => pc(s, t) is Holding,
        Op::ClearOwner => pc(s, t) is Releasing,
        Op::ReleaseWord => pc(s, t) is Unlocking,
        Op::Wake { woken } => {
            &&& pc(s, t) is Waking
            &&& someone_asleep(s) ==> pc(s, woken) is Asleep
        },
    }
}

/// The state after thread `t` takes step `op` in `s`.
pub open spec fn step(s: Machine, t: usize, op: Op) -> Machine {
    match op {
        Op::Reenter => Machine { depth: (s.depth + 1) as u32, ..s },
        Op::TryAcquire => if spec_poll_step(s.state == FREE, s.state == FREE) is Done {
            Machine { state: LOCKED, ..set_pc(s, t, Pc::Acquired) }
        } else {
            s
        },
        Op::BeginBlocking => set_pc(s, t, Pc::Blocking),
        Op::SwapContended => if spec_blocking_step(s.state) is Done {
            Machine { state: CONTENDED, ..set_pc(s, t, Pc::Acquired) }
        } else {
            Machine { state: CONTENDED, ..set_pc(s, t, Pc::Waiting) }
        },
        Op::Wait => if s.state == CONTENDED {
            set_pc(s, t, Pc::Asleep)
        } else {
            set_pc(s, t, Pc::Blocking)
        },
        Op::StoreOwner => Machine { owner: t, ..set_pc(s, t, Pc::Claimed) },
        Op::StoreDepth => Machine { depth: 1, ..set_pc(s, t, Pc::Holding) },
        Op::LeaveDepth => Machine {
            depth: (s.depth - 1) as u32,
            ..set_pc(s, t, if spec_keeps_lock(s.depth) { Pc::Holding } else { Pc::Releasing })
        },
        Op::ClearOwner => Machine { owner: 0, ..set_pc(s, t, Pc::Unlocking) },
        Op::ReleaseWord => Machine {
            state: FREE,
            ..set_pc(s, t, if spec_must_wake(s.state) { Pc::Waking } else { Pc::Idle })
        },
        Op::Wake { woken } => if pc(s, woken) is Asleep {
            set_pc(set_pc(s, t, Pc::Idle), woken, Pc::Blocking)
        } else {
            set_pc(s, t, Pc::Idle)
        },
    }
}

/// A fresh mutex satisfies the invariant.
pub proof fn lemma_initial_invariant()
    ensures
        inv(initial()),
{
    let s = initial();
    assert(!someone_holds(s));
    assert(!someone_asleep(s));
}

/// Moving thread `t` to `p` changes the place of `t` alone.
proof fn lemma_set_pc(s: Machine, t: usize, p: Pc)
    ensures
        forall|u: usize| #[trigger]
            pc(set_pc(s, t, p), u) == (if u == t { p } else { pc(s, u) }),
{
}

/// Two states with the same places have the same holders, sleepers and awake threads.
proof fn lemma_same_places(s: Machine, s2: Machine)
    requires
        forall|u: usize| #[trigger] pc(s2, u) == pc(s, u),
    ensures
        someone_holds(s2) == someone_holds(s),
        someone_asleep(s2) == someone_asleep(s),
        someone_awake(s2) == someone_awake(s),
        exclusive(s2) == exclusive(s),
{
    if someone_holds(s) {
        let u = choose|u: usize| holds(#[trigger] pc(s, u));
        assert(holds(pc(s2, u)));
    }
    if someone_holds(s2) {
        let u = choose|u: usize| holds(#[trigger] pc(s2, u));
        assert(holds(pc(s, u)));
    }
    if someone_asleep(s) {
        let u = choose|u: usize| #[trigger] pc(s, u) is Asleep;
        assert(pc(s2, u) is Asleep);
    }
    if someone_asleep(s2) {
        let u = choose|u: usize| #[trigger] pc(s2, u) is Asleep;
        assert(pc(s, u) is Asleep);
    }
    if someone_awake(s) {
        let u = choose|u: usize| awake(#[trigger] pc(s, u));
        assert(awake(pc(s2, u)));
    }
    if someone_awake(s2) {
        let u = choose|u: usize| awake(#[trigger] pc(s2, u));
        assert(awake(pc(s, u)));
    }
    if exclusive(s) {
        assert forall|t1: usize, t2: usize|
            holds(#[trigger] pc(s2, t1)) && holds(#[trigger] pc(s2, t2)) implies t1 == t2 by {
            assert(holds(pc(s, t1)) && holds(pc(s, t2)));
        }
    }
    if exclusive(s2) {
        assert forall|t1: usize, t2: usize|
            holds(#[trigger] pc(s, t1)) && holds(#[trigger] pc(s, t2)) implies t1 == t2 by {
            assert(holds(pc(s2, t1)) && holds(pc(s2, t2)));
        }
    }
}

/// Moving a thread that holds nothing before or after keeps the holders as they were.
proof fn lemma_outsider_moves(s: Machine, t: usize, p: Pc)
    requires
        !holds(pc(s, t)),
        !holds(p),
    ensures
        someone_holds(set_pc(s, t, p)) == someone_holds(s),
        exclusive(s) ==> exclusive(set_pc(s, t, p)),
{
    let s2 = set_pc(s, t, p);
    lemma_set_pc(s, t, p);
    if someone_holds(s) {
        let u = choose|u: usize| holds(#[trigger] pc(s, u));
        assert(holds(pc(s2, u)));
    }
    if someone_holds(s2) {
        let u = choose|u: usize| holds(#[trigger] pc(s2, u));
        assert(holds(pc(s, u)));
    }
    if exclusive(s) {
        assert forall|t1: usize, t2: usize|
            holds(#[trigger] pc(s2, t1)) && holds(#[trigger] pc(s2, t2)) implies t1 == t2 by {
            assert(holds(pc(s, t1)) && holds(pc(s, t2)));
        }
    }
}

/// With no thread holding the word, there is no owner and the depth is zero.
proof fn lemma_nobody_holds(s: Machine)
    requires
        inv(s),
        !someone_holds(s),
    ensures
        s.owner == 0,
        s.depth == 0,
        forall|u: usize| !holds(#[trigger] pc(s, u)),
{
    if s.owner != 0 {
        assert(owns(pc(s, s.owner)));
        assert(holds(pc(s, s.owner)));
    }
    if s.depth != 0 {
        let u = choose|u: usize| #[trigger] pc(s, u) is Holding;
        assert(holds(pc(s, u)));
    }
}

/// With thread `t` holding the word, no other thread holds it, and the owner and
/// depth are as `t`'s place says.
proof fn lemma_sole_holder(s: Machine, t: usize)
    requires
        inv(s),
        t != 0,
        holds(pc(s, t)),
    ensures
        forall|u: usize| u != t ==> !holds(#[trigger] pc(s, u)),
        owns(pc(s, t)) ==> s.owner == t,
        !owns(pc(s, t)) ==> s.owner == 0,
        !(pc(s, t) is Holding) ==> s.depth == 0,
{
    assert forall|u: usize| u != t implies !holds(#[trigger] pc(s, u)) by {
        if holds(pc(s, u)) {
            assert(holds(pc(s, t)) && holds(pc(s, u)));
        }
    }
    if s.owner != 0 {
        assert(owns(pc(s, s.owner)));
    }
    if s.depth != 0 {
        let u = choose|u: usize| #[trigger] pc(s, u) is Holding;
        assert(holds(pc(s, u)));
    }
}

proof fn lemma_reenter(s: Machine, t: usize)
    requires
        inv(s),
        enabled(s, t, Op::Reenter),
    ensures
        inv(step(s, t, Op::Reenter)),
{
    let s2 = step(s, t, Op::Reenter);
    lemma_same_places(s, s2);
    assert(pc(s2, t) is Holding);
    assert(owner_recorded(s2));
    assert(depth_counted(s2));
}

/// Taking a free word into `word` makes `t` the one holder.
proof fn lemma_take_free_word(s: Machine, t: usize, word: i32)
    requires
        inv(s),
        t != 0,
        s.state == FREE,
        pc(s, t) is Idle || (pc(s, t) is Blocking && word == CONTENDED),
        valid_word(word),
        word != FREE,
    ensures
        inv(Machine { state: word, ..set_pc(s, t, Pc::Acquired) }),
{
    let s1 = set_pc(s, t, Pc::Acquired);
    let s2 = Machine { state: word, ..s1 };
    lemma_nobody_holds(s);
    lemma_set_pc(s, t, Pc::Acquired);
    assert(forall|u: usize| #[trigger] pc(s2, u) == pc(s1, u));
    assert(holds(pc(s2, t)));
    assert forall|t1: usize, t2: usize|
        holds(#[trigger] pc(s2, t1)) && holds(#[trigger] pc(s2, t2)) implies t1 == t2 by {
        if t1 != t {
            assert(!holds(pc(s, t1)));
        }
        if t2 != t {
            assert(!holds(pc(s, t2)));
        }
    }
    assert(exclusive(s2));
    assert forall|u: usize| u != 0 implies (owns(#[trigger] pc(s2, u)) == (s2.owner == u)) by {
        if u != t {
            assert(!holds(pc(s, u)));
        }
    }
    assert(owner_recorded(s2));
    assert forall|u: usize| #[trigger] pc(s2, u) is Holding implies s2.depth >= 1 by {
        if u != t {
            assert(!holds(pc(s, u)));
        }
    }
    assert(depth_counted(s2));
    if someone_asleep(s2) {
        let a = choose|a: usize| #[trigger] pc(s2, a) is Asleep;
        assert(pc(s, a) is Asleep);
        if word != CONTENDED {
            let w = choose|w: usize| awake(#[trigger] pc(s, w));
            assert(awake(pc(s2, w)));
        }
    }
}

proof fn lemma_try_acquire(s: Machine, t: usize)
    requires
        inv(s),
        enabled(s, t, Op::TryAcquire),
    ensures
        inv(step(s, t, Op::TryAcquire)),
{
    if s.state == FREE {
        lemma_take_free_word(s, t, LOCKED);
    }
}

/// A thread that holds nothing before and after moving keeps the invariant, provided
/// the word, as it ends, still wakes every sleeper.
proof fn lemma_outsider_keeps(s: Machine, t: usize, p: Pc, word: i32)
    requires
        inv(s),
        t != 0,
        !holds(pc(s, t)),
        !holds(p),
        awake(p) || word == CONTENDED,
        valid_word(word),
        (word == FREE) == (s.state == FREE),
        word == CONTENDED || s.state == word,
    ensures
        inv(Machine { state: word, ..set_pc(s, t, p) }),
{
    let s1 = set_pc(s, t, p);
    let s2 = Machine { state: word, ..s1 };
    lemma_set_pc(s, t, p);
    lemma_outsider_moves(s, t, p);
    lemma_same_places(s1, s2);
    assert(!owns(pc(s, t)));
    assert forall|u: usize| u != 0 implies (owns(#[trigger] pc(s2, u)) == (s2.owner == u)) by {
        if u == t {
            assert(s.owner != t);
        } else {
            assert(pc(s2, u) == pc(s, u));
        }
    }
    assert(owner_recorded(s2));
    assert forall|u: usize| #[trigger] pc(s2, u) is Holding implies s2.depth >= 1 by {
        assert(pc(s, u) is Holding);
    }
    if s.depth != 0 {
        let u = choose|u: usize| #[trigger] pc(s, u) is Holding;
        assert(pc(s2, u) is Holding);
    }
    assert(depth_counted(s2));
    if someone_asleep(s2) && word != CONTENDED {
        assert(awake(pc(s2, t)));
    }
}

proof fn lemma_holder_moves(s: Machine, t: usize, p: Pc, owner: usize, depth: u32)
    requires
        inv(s),
        t != 0,
        holds(pc(s, t)),
        holds(p),
        owns(p) ==> owner == t,
        !owns(p) ==> owner == 0,
        p is Holding ==> depth >= 1,
        !(p is Holding) ==> depth == 0,
    ensures
        inv(Machine { owner: owner, depth: depth, ..set_pc(s, t, p) }),
{
    let s1 = set_pc(s, t, p);
    let s2 = Machine { owner: owner, depth: depth, ..s1 };
    lemma_sole_holder(s, t);
    lemma_set_pc(s, t, p);
    assert(holds(pc(s2, t)));
    assert forall|t1: usize, t2: usize|
        holds(#[trigger] pc(s2, t1)) && holds(#[trigger] pc(s2, t2)) implies t1 == t2 by {
        if t1 != t {
            assert(!holds(pc(s, t1)));
        }
        if t2 != t {
            assert(!holds(pc(s, t2)));
        }
    }
    assert(exclusive(s2));
    assert forall|u: usize| u != 0 implies (owns(#[trigger] pc(s2, u)) == (s2.owner == u)) by {
        if u != t {
            assert(!holds(pc(s, u)));
        }
    }
    assert(owner_recorded(s2));
    assert forall|u: usize| #[trigger] pc(s2, u) is Holding implies s2.depth >= 1 by {
        if u != t {
            assert(!holds(pc(s, u)));
        }
    }
    if depth != 0 {
        assert(pc(s2, t) is Holding);
    }
    assert(depth_counted(s2));
    assert(someone_holds(s2));
    assert(someone_holds(s));
    if someone_asleep(s2) {
        let a = choose|a: usize| #[trigger] pc(s2, a) is Asleep;
        assert(pc(s, a) is Asleep);
        if s.state != CONTENDED {
            let w = choose|w: usize| awake(#[trigger] pc(s, w));
            assert(awake(pc(s2, w)));
        }
    }
}

proof fn lemma_release_word(s: Machine, t: usize)
    requires
        inv(s),
        enabled(s, t, Op::ReleaseWord),
    ensures
        inv(step(s, t, Op::ReleaseWord)),
{
    let p = if spec_must_wake(s.state) { Pc::Waking } else { Pc::Idle };
    let s2 = step(s, t, Op::ReleaseWord);
    lemma_sole_holder(s, t);
    lemma_set_pc(s, t, p);
    assert forall|u: usize| !holds(#[trigger] pc(s2, u)) by {
        if u != t {
            assert(!holds(pc(s, u)));
        }
    }
    assert(!someone_holds(s2));
    assert(owner_recorded(s2));
    assert forall|u: usize| !(#[trigger] pc(s2, u) is Holding) by {
        assert(!holds(pc(s2, u)));
    }
    assert(depth_counted(s2));
    if someone_asleep(s2) {
        let a = choose|a: usize| #[trigger] pc(s2, a) is Asleep;
        assert(pc(s, a) is Asleep);
        if spec_must_wake(s.state) {
            assert(awake(pc(s2, t)));
        } else {
            let w = choose|w: usize| awake(#[trigger] pc(s, w));
            assert(awake(pc(s2, w)));
        }
    }
}

proof fn lemma_wake(s: Machine, t: usize, woken: usize)
    requires
        inv(s),
        enabled(s, t, Op::Wake { woken }),
    ensures
        inv(step(s, t, Op::Wake { woken })),
{
    let s1 = set_pc(s, t, Pc::Idle);
    let s2 = step(s, t, Op::Wake { woken });
    let wakes = pc(s, woken) is Asleep;
    lemma_set_pc(s, t, Pc::Idle);
    lemma_set_pc(s1, woken, Pc::Blocking);
    assert forall|u: usize| #[trigger] pc(s2, u) == (if wakes && u == woken {
        Pc::Blocking
    } else if u == t {
        Pc::Idle
    } else {
        pc(s, u)
    }) by {}
    assert forall|u: usize| #[trigger] holds(pc(s2, u)) == holds(pc(s, u)) by {}
    assert forall|u: usize| #![trigger pc(s2, u)] u != 0 implies (owns(pc(s2, u)) == (s2.owner == u)) by {
        assert(owns(pc(s2, u)) == owns(pc(s, u)));
        assert(owns(pc(s, u)) == (s.owner == u));
    }
    assert(owner_recorded(s2));
    lemma_same_holders(s, s2);
    assert forall|u: usize| #[trigger] pc(s2, u) is Holding implies s2.depth >= 1 by {
        assert(pc(s, u) is Holding);
    }
    if s.depth != 0 {
        let u = choose|u: usize| #[trigger] pc(s, u) is Holding;
        assert(pc(s2, u) is Holding);
    }
    assert(depth_counted(s2));
    if someone_asleep(s2) {
        let a = choose|a: usize| #[trigger] pc(s2, a) is Asleep;
        assert(pc(s, a) is Asleep);
        assert(awake(pc(s2, woken)));
    }
}

/// Two states whose threads hold the word alike have the same holders.
proof fn lemma_same_holders(s: Machine, s2: Machine)
    requires
        forall|u: usize| #[trigger] holds(pc(s2, u)) == holds(pc(s, u)),
    ensures
        someone_holds(s2) == someone_holds(s),
        exclusive(s2) == exclusive(s),
{
    if someone_holds(s) {
        let u = choose|u: usize| holds(#[trigger] pc(s, u));
        assert(holds(pc(s2, u)));
    }
    if someone_holds(s2) {
        let u = choose|u: usize| holds(#[trigger] pc(s2, u));
        assert(holds(pc(s, u)));
    }
    if exclusive(s) {
        assert forall|t1: usize, t2: usize|
            holds(#[trigger] pc(s2, t1)) && holds(#[trigger] pc(s2, t2)) implies t1 == t2 by {
            assert(holds(pc(s, t1)) && holds(pc(s, t2)));
        }
    }
    if exclusive(s2) {
        assert forall|t1: usize, t2: usize|
            holds(#[trigger] pc(s, t1)) && holds(#[trigger] pc(s, t2)) implies t1 == t2 by {
            assert(holds(pc(s2, t1)) && holds(pc(s2, t2)));
        }
    }
}

/// Every step of every thread keeps the invariant, so every interleaving of the
/// threads' operations from a fresh mutex does.
pub proof fn lemma_step_keeps_invariant(s: Machine, t: usize, op: Op)
    requires
        inv(s),
        enabled(s, t, op),
    ensures
        inv(step(s, t, op)),
{
    match op {
        Op::Reenter => lemma_reenter(s, t),
        Op::TryAcquire => lemma_try_acquire(s, t),
        Op::BeginBlocking => lemma_outsider_keeps(s, t, Pc::Blocking, s.state),
        Op::SwapContended => {
            if s.state == FREE {
                lemma_take_free_word(s, t, CONTENDED);
            } else {
                lemma_outsider_keeps(s, t, Pc::Waiting, CONTENDED);
            }
        },
        Op::Wait => {
            let p = if s.state == CONTENDED { Pc::Asleep } else { Pc::Blocking };
            lemma_outsider_keeps(s, t, p, s.state);
        },
        Op::StoreOwner => lemma_holder_moves(s, t, Pc::Claimed, t, s.depth),
        Op::StoreDepth => lemma_holder_moves(s, t, Pc::Holding, s.owner, 1),
        Op::LeaveDepth => {
            let p = if spec_keeps_lock(s.depth) { Pc::Holding } else { Pc::Releasing };
            lemma_holder_moves(s, t, p, s.owner, (s.depth - 1) as u32);
        },
        Op::ClearOwner => lemma_holder_moves(s, t, Pc::Unlocking, 0, s.depth),
        Op::ReleaseWord => lemma_release_word(s, t),
        Op::Wake { woken } => lemma_wake(s, t, woken),
    }
}

/// Mutual exclusion: at most one thread holds the mutex.
pub proof fn lemma_mutual_exclusion(s: Machine, t1: usize, t2: usize)
    requires
        inv(s),
        holds(pc(s, t1)),
        holds(pc(s, t2)),
    ensures
        t1 == t2,
{
    assert(holds(pc(s, t1)) && holds(pc(s, t2)));
}

/// `held` tells the truth: the owner word reads as thread `t` exactly when `t` is the
/// recorded owner, and a recorded owner holds the mutex.
pub proof fn lemma_held_is_ownership(s: Machine, t: usize)
    requires
        inv(s),
        t != 0,
    ensures
        spec_is_owner(s.owner, t) == owns(pc(s, t)),
        owns(pc(s, t)) ==> holds(pc(s, t)),
        spec_start_step(s.owner, t) is Done == owns(pc(s, t)),
{
    assert(owns(pc(s, t)) == (s.owner == t));
}

/// A refused request: while thread `h` holds the mutex, another thread `u` that tries to
/// enter does not read itself as owner, its compare-and-swap changes nothing (SQLite's
/// answer is `SQLITE_BUSY`), and its swap in the sleeping loop sends it to wait.
pub proof fn lemma_busy_while_held(s: Machine, h: usize, u: usize)
    requires
        inv(s),
        holds(pc(s, h)),
        u != h,
        u != 0,
    ensures
        !spec_is_owner(s.owner, u),
        spec_start_step(s.owner, u) == Attempt::Next(Phase::Spinning { tries: 0 }),
        pc(s, u) is Idle ==> step(s, u, Op::TryAcquire) == s,
        !spec_try_outcome(spec_is_owner(s.owner, u), s.state == FREE),
        pc(s, u) is Blocking ==> pc(step(s, u, Op::SwapContended), u) is Waiting,
{
    assert(holds(pc(s, h)) && holds(pc(s, u)) ==> h == u);
    assert(owns(pc(s, u)) == (s.owner == u));
    assert(someone_holds(s));
}

/// Recursion balances: a holder that enters again and leaves once is back where it was.
pub proof fn lemma_recursion_balances(s: Machine, t: usize)
    requires
        inv(s),
        enabled(s, t, Op::Reenter),
    ensures
        enabled(step(s, t, Op::Reenter), t, Op::LeaveDepth),
        step(step(s, t, Op::Reenter), t, Op::LeaveDepth) == s,
{
    let s1 = step(s, t, Op::Reenter);
    let s2 = step(s1, t, Op::LeaveDepth);
    lemma_set_pc(s1, t, Pc::Holding);
    assert(s2.pcs =~= s.pcs);
}

/// Entering a free mutex and leaving it gives it back as it was: the thread's steps
/// through `try_enter` (or `enter`'s first spin) and `leave` are all enabled, and they
/// restore the word, the owner, the depth and every thread's place.
pub proof fn lemma_enter_leave_restores(s: Machine, t: usize)
    requires
        inv(s),
        t != 0,
        s.state == FREE,
        pc(s, t) is Idle,
    ensures
        ({
            let s1 = step(s, t, Op::TryAcquire);
            let s2 = step(s1, t, Op::StoreOwner);
            let s3 = step(s2, t, Op::StoreDepth);
            let s4 = step(s3, t, Op::LeaveDepth);
            let s5 = step(s4, t, Op::ClearOwner);
            let s6 = step(s5, t, Op::ReleaseWord);
            &&& enabled(s, t, Op::TryAcquire)
            &&& enabled(s1, t, Op::StoreOwner)
            &&& enabled(s2, t, Op::StoreDepth)
            &&& pc(s3, t) is Holding
            &&& enabled(s3, t, Op::LeaveDepth)
            &&& enabled(s4, t, Op::ClearOwner)
            &&& enabled(s5, t, Op::ReleaseWord)
            &&& s6 == s
        }),
{
    let s1 = step(s, t, Op::TryAcquire);
    let s2 = step(s1, t, Op::StoreOwner);
    let s3 = step(s2, t, Op::StoreDepth);
    let s4 = step(s3, t, Op::LeaveDepth);
    let s5 = step(s4, t, Op::ClearOwner);
    let s6 = step(s5, t, Op::ReleaseWord);
    lemma_nobody_holds(s);
    lemma_set_pc(s, t, Pc::Acquired);
    lemma_set_pc(s1, t, Pc::Claimed);
    lemma_set_pc(s2, t, Pc::Holding);
    lemma_set_pc(s3, t, Pc::Releasing);
    lemma_set_pc(s4, t, Pc::Unlocking);
    assert(s6.pcs =~= s.pcs);
}

/// No wake-up is lost: while some thread sleeps on the word, the word is `CONTENDED`,
/// so that the holder wakes a sleeper when it leaves, or a thread of the sleeping loop
/// is awake and will take the word as `CONTENDED` in turn.
pub proof fn lemma_no_lost_wakeup(s: Machine)
    requires
        inv(s),
        someone_asleep(s),
    ensures
        s.state == CONTENDED || someone_awake(s),
        s.state == CONTENDED ==> someone_holds(s),
{
}

/// A holder that frees a `CONTENDED` word goes on to wake a sleeper, and its wake-up
/// wakes a thread asleep on the word if there is one.
pub proof fn lemma_contended_release_wakes(s: Machine, t: usize, woken: usize)
    requires
        inv(s),
        enabled(s, t, Op::ReleaseWord),
        s.state == CONTENDED,
    ensures
        ({
            let freed = step(s, t, Op::ReleaseWord);
            &&& freed.state == FREE
            &&& pc(freed, t) is Waking
            &&& enabled(freed, t, Op::Wake { woken }) && someone_asleep(freed) ==> pc(
                step(freed, t, Op::Wake { woken }),
                woken,
            ) is Blocking
        }),
{
    let freed = step(s, t, Op::ReleaseWord);
    lemma_set_pc(s, t, Pc::Waking);
    lemma_set_pc(freed, t, Pc::Idle);
    lemma_set_pc(set_pc(freed, t, Pc::Idle), woken, Pc::Blocking);
}

/// Only its holder gives the mutex up: while thread `t` holds it, any step of another
/// thread leaves `t`'s place, the owner and the depth alone, and the word taken. (A thread
/// that stops inside the mutex leaves it held for good.)
pub proof fn lemma_holder_undisturbed(s: Machine, t: usize, u: usize, op: Op)
    requires
        inv(s),
        holds(pc(s, t)),
        u != t,
        enabled(s, u, op),
    ensures
        pc(step(s, u, op), t) == pc(s, t),
        step(s, u, op).owner == s.owner,
        step(s, u, op).depth == s.depth,
        step(s, u, op).state != FREE,
{
    assert(holds(pc(s, t)) && holds(pc(s, u)) ==> t == u);
    assert(someone_holds(s));
    match op {
        Op::Wake { woken } => {
            lemma_set_pc(s, u, Pc::Idle);
            lemma_set_pc(set_pc(s, u, Pc::Idle), woken, Pc::Blocking);
        },
        Op::TryAcquire => {},
        Op::SwapContended => {
            lemma_set_pc(s, u, Pc::Waiting);
        },
        Op::BeginBlocking => {
            lemma_set_pc(s, u, Pc::Blocking);
        },
        Op::Wait => {
            lemma_set_pc(s, u, Pc::Blocking);
            lemma_set_pc(s, u, Pc::Asleep);
        },
        _ => {},
    }
}

/// Whether the values that access `a` read are those of `s`: what a load, a swap, an
/// increment or a decrement found, and the compare-and-swap's answer, which succeeds
/// exactly when the word held `current`.
pub open spec fn agrees(s: Machine, a: Access) -> bool {
    match a {
        Access::LoadState { word } => word == s.state,
        Access::CasState { current, result, .. } => match result {
            Ok(prev) => prev == s.state && prev == current,
            Err(prev) => prev == s.state && prev != current,
        },
        Access::SwapState { prev, .. } => prev == s.state,
        Access::LoadOwner { owner } => owner == s.owner,
        Access::AddDepth { before } => before == s.depth,
        Access::SubDepth { from } => from == s.depth,
        Access::StoreOwner { .. } => true,
        Access::StoreDepth { .. } => true,
    }
}

/// The step of thread `t` that a recorded write is; loads are no step.
pub open spec fn access_op(a: Access, t: usize) -> Option<Op> {
    match a {
        Access::CasState { current, new, .. } => if current == FREE && new == LOCKED {
            Some(Op::TryAcquire)
        } else {
            None
        },
        Access::SwapState { put, .. } => if put == CONTENDED {
            Some(Op::SwapContended)
        } else if put == FREE {
            Some(Op::ReleaseWord)
        } else {
            None
        },
        Access::StoreOwner { stored } => if stored == 0 {
            Some(Op::ClearOwner)
        } else if stored == t {
            Some(Op::StoreOwner)
        } else {
            None
        },
        Access::AddDepth { .. } => Some(Op::Reenter),
        Access::SubDepth { .. } => Some(Op::LeaveDepth),
        Access::StoreDepth { depth } => if depth == 1 {
            Some(Op::StoreDepth)
        } else {
            None
        },
        Access::LoadState { .. } => None,
        Access::LoadOwner { .. } => None,
    }
}

/// The words (lock word, owner, depth) that access `a` leaves, made on `s`.
pub open spec fn written(s: Machine, a: Access) -> (i32, usize, u32) {
    match a {
        Access::CasState { new, result, .. } => (
            if result is Ok {
                new
            } else {
                s.state
            },
            s.owner,
            s.depth,
        ),
        Access::SwapState { put, .. } => (put, s.owner, s.depth),
        Access::StoreOwner { stored } => (s.state, stored, s.depth),
        Access::AddDepth { before } => (s.state, s.owner, (before + 1) as u32),
        Access::SubDepth { from } => (s.state, s.owner, (from - 1) as u32),
        Access::StoreDepth { depth } => (s.state, s.owner, depth),
        _ => (s.state, s.owner, s.depth),
    }
}

/// The code is the machine: every write that an operation records, made by thread `t`
/// on a state whose values its reads saw, is the step `access_op` names, and that step
/// leaves the three words exactly as the write does.
pub proof fn lemma_access_is_step(s: Machine, t: usize, a: Access, op: Op)
    requires
        inv(s),
        agrees(s, a),
        access_op(a, t) == Some(op),
        enabled(s, t, op),
    ensures
        ({
            let s2 = step(s, t, op);
            (s2.state, s2.owner, s2.depth) == written(s, a)
        }),
{
}

/// A last-level `leave` is the machine's release, in order: its decrement, its owner
/// clear and its swap of `FREE` are the steps `LeaveDepth`, `ClearOwner` and
/// `ReleaseWord` of the holder, each enabled when it comes; the word cannot be freed
/// before the owner is cleared.
pub proof fn lemma_leave_record_is_release(s: Machine, t: usize, accs: Seq<Access>, wake: bool)
    requires
        inv(s),
        t != 0,
        pc(s, t) is Holding,
        s.depth == 1,
        leave_trace(accs, wake),
        agrees(s, accs[0]),
    ensures
        ({
            let s1 = step(s, t, Op::LeaveDepth);
            let s2 = step(s1, t, Op::ClearOwner);
            &&& access_op(accs[0], t) == Some(Op::LeaveDepth)
            &&& enabled(s, t, Op::LeaveDepth)
            &&& access_op(accs[1], t) == Some(Op::ClearOwner)
            &&& enabled(s1, t, Op::ClearOwner)
            &&& !enabled(s1, t, Op::ReleaseWord)
            &&& access_op(accs[2], t) == Some(Op::ReleaseWord)
            &&& enabled(s2, t, Op::ReleaseWord)
        }),
{
    let s1 = step(s, t, Op::LeaveDepth);
    lemma_set_pc(s, t, Pc::Releasing);
    lemma_set_pc(s1, t, Pc::Unlocking);
}

} // verus!
