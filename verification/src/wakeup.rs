//! Why a parked side is always woken. One side (the waiter) waits for the
//! word its peer (the mover) publishes to change; the mover publishes a new
//! value, then looks at the waiter's contention flag and wakes the futex if
//! the flag is set. Each side has a sequentially consistent fence between
//! its store and its following load, so their steps are modelled here as an
//! interleaving of single atomic steps. The waiter's decisions are exactly
//! those of `SpinWait::next` (`wait_step`).
use crate::wait::{wait_step, WaitAction};
use vstd::prelude::*;

verus! {

/// Where the waiter is.
pub enum WaiterPc {
    /// About to decide from the last value it loaded.
    Deciding,
    /// About to load the word again.
    Loading,
    /// Inside the futex wait, before the kernel compared the word.
    Entering,
    /// Asleep in the kernel until a wake.
    Asleep,
    /// Not waiting.
    Done,
}

/// Where the mover is.
pub enum MoverPc {
    /// Between moves.
    Idle,
    /// Has published a new value and is about to look at the flag.
    Stored,
    /// Saw the flag set and is about to wake the futex.
    Waking,
}

/// The shared words and both sides' local state.
pub struct WakeState {
    /// The mover's published position: the futex word.
    pub word: u32,
    /// The waiter's contention flag.
    pub flag: u32,
    /// The value of `word` the waiter loaded last.
    pub seen: u32,
    /// The value the waiter's futex wait expects.
    pub expected: u32,
    /// The waiter's spin rounds left.
    pub remaining: nat,
    /// Whether the waiter's last action was to announce itself.
    pub announced: bool,
    /// Whether the waiter has set its flag during the current wait.
    pub parked: bool,
    pub waiter: WaiterPc,
    pub mover: MoverPc,
}

/// A waiter that is not waiting, with its flag clear.
pub open spec fn wake_init(s: WakeState) -> bool {
    &&& s.flag == 0
    &&& !s.parked
    &&& s.waiter is Done
    &&& s.mover is Idle
}

/// One step of the waiter. `ready` says whether a loaded value lets it go on.
pub open spec fn waiter_step(s: WakeState, t: WakeState, ready: spec_fn(u32) -> bool, spin_limit: nat) -> bool {
    &&& t.word == s.word
    &&& t.mover == s.mover
    &&& match s.waiter {
        WaiterPc::Done => {
            // a new wait: load the word, fresh spin budget
            &&& t.waiter is Deciding
            &&& t.seen == s.word
            &&& t.remaining == spin_limit
            &&& !t.announced
            &&& t.parked == s.parked
            &&& t.flag == s.flag
            &&& t.expected == s.expected
        },
        WaiterPc::Deciding => {
            let (rem, ann, action) = wait_step(s.remaining, s.announced, ready(s.seen));
            &&& t.remaining == rem
            &&& t.announced == ann
            &&& t.expected == (if action is Sleep {
                s.seen
            } else {
                s.expected
            })
            &&& match action {
                WaitAction::Proceed { clear_flag } => {
                    &&& t.waiter is Done
                    &&& t.seen == s.seen
                    &&& t.flag == (if clear_flag {
                        0
                    } else {
                        s.flag
                    })
                    &&& t.parked == (s.parked && !clear_flag)
                },
                WaitAction::Spin => {
                    &&& t.waiter is Deciding
                    &&& t.seen == s.word
                    &&& t.flag == s.flag
                    &&& t.parked == s.parked
                },
                WaitAction::Announce => {
                    &&& t.waiter is Loading
                    &&& t.seen == s.seen
                    &&& t.flag == 1
                    &&& t.parked
                },
                WaitAction::GiveUp => false,
                WaitAction::Sleep => {
                    &&& t.waiter is Entering
                    &&& t.seen == s.seen
                    &&& t.flag == s.flag
                    &&& t.parked == s.parked
                },
            }
        },
        WaiterPc::Loading => {
            &&& t.waiter is Deciding
            &&& t.seen == s.word
            &&& t.flag == s.flag
            &&& t.parked == s.parked
            &&& t.remaining == s.remaining
            &&& t.announced == s.announced
            &&& t.expected == s.expected
        },
        WaiterPc::Entering => {
            // the kernel compares the word with the expected value atomically,
            // or the wait fails and the waiter clears its flag and gives up
            // (`SpinWait::sleep_failed`)
            ||| {
                &&& t.waiter == (if s.word == s.expected {
                    WaiterPc::Asleep
                } else {
                    WaiterPc::Loading
                })
                &&& t.seen == s.seen
                &&& t.flag == s.flag
                &&& t.parked == s.parked
                &&& t.remaining == s.remaining
                &&& t.announced == s.announced
                &&& t.expected == s.expected
            }
            ||| {
                &&& t.waiter is Done
                &&& t.flag == 0
                &&& !t.parked
                &&& t.seen == s.seen
                &&& t.remaining == s.remaining
                &&& t.announced == s.announced
                &&& t.expected == s.expected
            }
        },
        WaiterPc::Asleep => {
            // a timeout or a failure: the waiter clears its flag and gives up
            &&& t.waiter is Done
            &&& t.flag == 0
            &&& !t.parked
            &&& t.seen == s.seen
            &&& t.remaining == s.remaining
            &&& t.announced == s.announced
            &&& t.expected == s.expected
        },
    }
}

/// One step of the mover.
pub open spec fn mover_step(s: WakeState, t: WakeState) -> bool {
    &&& t.flag == s.flag
    &&& t.seen == s.seen
    &&& t.expected == s.expected
    &&& t.remaining == s.remaining
    &&& t.announced == s.announced
    &&& t.parked == s.parked
    &&& match s.mover {
        MoverPc::Idle => {
            // publish any new value
            &&& t.mover is Stored
            &&& t.waiter == s.waiter
        },
        MoverPc::Stored => {
            &&& t.word == s.word
            &&& t.waiter == s.waiter
            &&& t.mover == (if s.flag != 0 {
                MoverPc::Waking
            } else {
                MoverPc::Idle
            })
        },
        MoverPc::Waking => {
            &&& t.word == s.word
            &&& t.mover is Idle
            &&& t.waiter == (if s.waiter is Asleep {
                WaiterPc::Loading
            } else {
                s.waiter
            })
        },
    }
}

pub open spec fn wake_step(s: WakeState, t: WakeState, ready: spec_fn(u32) -> bool, spin_limit: nat) -> bool {
    waiter_step(s, t, ready, spin_limit) || mover_step(s, t)
}

/// What holds in every reachable state.
pub open spec fn wake_inv(s: WakeState, ready: spec_fn(u32) -> bool) -> bool {
    // the flag is set exactly while the waiter is parked
    &&& s.flag == (if s.parked {
        1u32
    } else {
        0u32
    })
    // it parks only once its spin budget is spent
    &&& s.parked ==> s.remaining == 0
    &&& !(s.waiter is Done) && s.announced ==> s.parked
    &&& s.waiter is Done ==> !s.parked
    &&& (s.waiter is Loading || s.waiter is Entering || s.waiter is Asleep) ==> s.parked
    // an asleep waiter either still expects the current word, or the mover
    // has published since and has yet to look at the flag or to wake
    &&& s.waiter is Asleep ==> (s.word == s.expected || s.mover is Stored || s.mover is Waking)
    &&& s.waiter is Asleep && s.mover is Waking ==> s.parked
    // it sleeps only on a value that did not let it go on
    &&& (s.waiter is Entering || s.waiter is Asleep) ==> !ready(s.expected)
}

/// No lost wakeup: the invariant holds initially and is kept by every step
/// of either side; the waiter sleeps only on a value that did not let it go
/// on, and in every state where it is asleep although the word has changed
/// since, the mover is on its way to wake it (it has yet to look at a flag
/// that is set, or is about to wake).
pub proof fn law_no_lost_wakeup(s: WakeState, t: WakeState, ready: spec_fn(u32) -> bool, spin_limit: nat)
    ensures
        wake_init(s) ==> wake_inv(s, ready),
        wake_inv(s, ready) && wake_step(s, t, ready, spin_limit) ==> wake_inv(t, ready),
        wake_inv(s, ready) && s.waiter is Asleep ==> !ready(s.expected),
        wake_inv(s, ready) && s.waiter is Asleep && s.word != s.expected ==> {
            ||| s.mover is Stored && s.flag != 0
            ||| s.mover is Waking
        },
{
}

} // verus!
