//! Records of the atomic instructions that an operation of the mutex performs: what it
//! handed each word and what each word gave back. The operations return their record
//! beside their answer, and their contracts say, instruction by instruction, what the
//! record holds and how the answer follows from the values read.

use vstd::prelude::*;
use crate::protocol::{
    spec_blocking_step, spec_is_owner, spec_keeps_lock, spec_must_wake, spec_poll_step,
    spec_spin_step, spec_start_step, spec_try_outcome, phase_ok, Attempt, Phase, CONTENDED, FREE,
    LOCKED,
};

verus! {

/// One atomic instruction on one of the mutex's three words.
pub enum Access {
    /// A load of the lock word, which read `word`.
    LoadState { word: i32 },
    /// A compare-and-swap of the lock word from `current` to `new`, which gave `result`.
    CasState { current: i32, new: i32, result: Result<i32, i32> },
    /// A swap of `put` into the lock word, which gave back `prev`.
    SwapState { put: i32, prev: i32 },
    /// A load of the owner word, which read `owner`.
    LoadOwner { owner: usize },
    /// A store of `stored` into the owner word.
    StoreOwner { stored: usize },
    /// An increment of the depth, which found `before`.
    AddDepth { before: u32 },
    /// A decrement of the depth, which found `from`.
    SubDepth { from: u32 },
    /// A store of `depth` into the depth word.
    StoreDepth { depth: u32 },
}

/// The values that the three words are created with.
pub struct Words {
    pub state: i32,
    pub owner: usize,
    pub depth: u32,
}

/// An operation's answer and the record of the atomic instructions that produced it.
pub struct Traced<T> {
    pub value: T,
    pub accesses: Ghost<Seq<Access>>,
}

/// The compare-and-swap that takes a `FREE` word as `LOCKED`.
pub open spec fn is_take(a: Access) -> bool {
    a matches Access::CasState { current, new, .. } && current == FREE && new == LOCKED
}

/// Whether a compare-and-swap succeeded.
pub open spec fn cas_succeeded(a: Access) -> bool {
    a matches Access::CasState { result, .. } && result is Ok
}

/// The record of `try_acquire`: one compare-and-swap from `FREE` to `LOCKED`.
pub open spec fn try_acquire_trace(accs: Seq<Access>, taken: bool) -> bool {
    &&& accs.len() == 1
    &&& is_take(accs[0])
    &&& taken == cas_succeeded(accs[0])
}

/// Whether a spin's first instruction, a load of the word, read `FREE`.
pub open spec fn read_free(accs: Seq<Access>) -> bool {
    accs[0] matches Access::LoadState { word } && word == FREE
}

/// Whether a spin took the word: it read `FREE` and its compare-and-swap succeeded.
pub open spec fn spin_took(accs: Seq<Access>) -> bool {
    read_free(accs) && cas_succeeded(accs[1])
}

/// The record of a spin or a poll: a load of the word and, only when it read `FREE`, the
/// compare-and-swap of `try_acquire`.
pub open spec fn spin_trace(accs: Seq<Access>) -> bool {
    &&& accs.len() >= 1
    &&& accs[0] is LoadState
    &&& if read_free(accs) {
        accs.len() == 2 && is_take(accs[1])
    } else {
        accs.len() == 1
    }
}

/// The record and answer of one step of `acquire` from `phase`.
pub open spec fn acquire_trace(phase: Phase, can_block: bool, accs: Seq<Access>, r: Attempt) -> bool {
    match phase {
        Phase::Blocking => {
            &&& accs.len() == 1
            &&& accs[0] matches Access::SwapState { put, prev }
            &&& put == CONTENDED
            &&& r == spec_blocking_step(prev)
        },
        Phase::Polling => spin_trace(accs) && r == spec_poll_step(read_free(accs), spin_took(accs)),
        Phase::Start => spin_trace(accs) && r == spec_spin_step(
            read_free(accs),
            spin_took(accs),
            0,
            can_block,
        ),
        Phase::Spinning { tries } => spin_trace(accs) && r == spec_spin_step(
            read_free(accs),
            spin_took(accs),
            tries,
            can_block,
        ),
    }
}

/// The record of claiming the mutex for `me`: the owner store, then the depth of one.
pub open spec fn claim_trace(me: usize) -> Seq<Access> {
    seq![Access::StoreOwner { stored: me }, Access::StoreDepth { depth: 1 }]
}

/// The record and answer of one step of `enter` for `me` from `phase`. From `Start`: a
/// load of the owner, and an increment of the depth when it named `me`. Otherwise: a
/// step of `acquire`, followed by the claim when it took the word.
pub open spec fn enter_trace(
    me: usize,
    phase: Phase,
    can_block: bool,
    accs: Seq<Access>,
    r: Attempt,
) -> bool {
    match phase {
        Phase::Start => {
            &&& accs.len() >= 1
            &&& accs[0] matches Access::LoadOwner { owner }
            &&& r == spec_start_step(owner, me)
            &&& if r is Done {
                accs.len() == 2 && accs[1] is AddDepth
            } else {
                accs.len() == 1
            }
        },
        _ => if r is Done {
            &&& accs.len() >= 2
            &&& acquire_trace(phase, can_block, accs.subrange(0, accs.len() - 2), r)
            &&& accs.subrange(accs.len() - 2, accs.len() as int) == claim_trace(me)
        } else {
            acquire_trace(phase, can_block, accs, r)
        },
    }
}

/// The record and answer of `try_enter` for `me`: a load of the owner; when it named
/// `me`, an increment of the depth; otherwise `try_acquire`'s compare-and-swap and, when
/// it succeeded, the claim.
pub open spec fn try_enter_trace(me: usize, accs: Seq<Access>, entered: bool) -> bool {
    &&& accs.len() >= 2
    &&& accs[0] matches Access::LoadOwner { owner }
    &&& if spec_is_owner(owner, me) {
        &&& accs.len() == 2
        &&& accs[1] is AddDepth
        &&& entered == spec_try_outcome(true, false)
    } else {
        &&& is_take(accs[1])
        &&& entered == spec_try_outcome(false, cas_succeeded(accs[1]))
        &&& if cas_succeeded(accs[1]) {
            accs.len() == 4 && accs.subrange(2, 4) == claim_trace(me)
        } else {
            accs.len() == 2
        }
    }
}

/// The record and answer of `leave`: a decrement of the depth; at the last level, the
/// store of no owner and the swap of `FREE` into the word, which asks for a wake-up
/// exactly when the word was `CONTENDED`.
pub open spec fn leave_trace(accs: Seq<Access>, wake: bool) -> bool {
    &&& accs.len() >= 1
    &&& accs[0] matches Access::SubDepth { from }
    &&& if spec_keeps_lock(from) {
        accs.len() == 1 && !wake
    } else {
        &&& accs.len() == 3
        &&& accs[1] == Access::StoreOwner { stored: 0 }
        &&& accs[2] matches Access::SwapState { put, prev }
        &&& put == FREE
        &&& wake == spec_must_wake(prev)
    }
}

/// The record and answer of `held` for `me`: one load of the owner, compared with `me`.
pub open spec fn held_trace(me: usize, accs: Seq<Access>, held: bool) -> bool {
    &&& accs.len() == 1
    &&& accs[0] matches Access::LoadOwner { owner }
    &&& held == spec_is_owner(owner, me)
}

/// One step of acquiring answers `Done` exactly when this call took the word itself:
/// in the sleeping loop, when its swap found the word `FREE`; spinning or polling, when
/// its load read `FREE` and its compare-and-swap then succeeded, whatever the spin count.
pub proof fn lemma_acquire_done_iff_took(phase: Phase, can_block: bool, accs: Seq<Access>, r: Attempt)
    requires
        phase_ok(phase),
        acquire_trace(phase, can_block, accs, r),
    ensures
        (r == Attempt::Done) == (if phase is Blocking {
            accs[0] matches Access::SwapState { prev, .. } && prev == FREE
        } else {
            &&& accs.len() == 2
            &&& accs[0] matches Access::LoadState { word }
            &&& word == FREE
            &&& accs[1] matches Access::CasState { result, .. }
            &&& result is Ok
        }),
{
}

/// `try_enter` succeeds exactly when the owner word named the caller or its own
/// compare-and-swap took the word: a failed compare-and-swap by a thread that does not
/// hold the mutex always answers `false` (`SQLITE_BUSY`), whatever the word held, and
/// then writes nothing more.
pub proof fn lemma_try_enter_succeeds_iff_owner_or_took(me: usize, accs: Seq<Access>, entered: bool)
    requires
        try_enter_trace(me, accs, entered),
    ensures
        entered == ((accs[0] matches Access::LoadOwner { owner } && owner == me) || (
        accs[1] matches Access::CasState { result, .. } && result is Ok)),
        !entered ==> accs.len() == 2,
        entered && !(accs[0] matches Access::LoadOwner { owner } && owner == me) ==> accs[2]
            == (Access::StoreOwner { stored: me }),
{
}

/// At its last level `leave` clears the owner word while it still holds the lock word,
/// and frees the word only afterwards, as its last write: no owner that another thread
/// stores after taking the freed word is ever wiped.
pub proof fn lemma_leave_clears_owner_before_freeing(accs: Seq<Access>, wake: bool)
    requires
        leave_trace(accs, wake),
        accs[0] matches Access::SubDepth { from } && from <= 1,
    ensures
        accs.len() == 3,
        accs[1] == (Access::StoreOwner { stored: 0 }),
        accs[2] matches Access::SwapState { put, .. } && put == FREE,
        forall|i: int| 0 <= i < accs.len() && accs[i] is StoreOwner ==> i < 2,
{
}

} // verus!
