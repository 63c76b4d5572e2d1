//! Why `SharedMutex` excludes, and when it wakes its sleepers. Several
//! lockers share the lock word; each one takes the lock by the decisions of
//! `LockAttempt::next` (`lock_step`) and releases it by swapping `UNLOCKED`
//! in and waking one sleeper when `SharedMutex::unlock_needs_wake` says so.
//! Every exchange, swap and futex call on the word is atomic, so the lockers'
//! steps are modelled as an interleaving of single steps on the word.
use crate::futex::FutexErrno;
use crate::shared_mutex::{
    lock_step, LockAction, LockEvent, LockPhase, CONTENDED, LOCKED, UNLOCKED,
};
use vstd::prelude::*;

verus! {

/// Where one locker is.
pub enum LockerPc {
    /// Not holding the lock and not trying to.
    Idle,
    /// About to perform the action its attempt issued in this phase.
    Pending(LockPhase),
    /// Asleep in the kernel on the lock word.
    Asleep,
    /// Holding the lock.
    Holding,
    /// Released the lock and about to wake one sleeper.
    Waking,
}

pub struct LockState {
    /// The lock word.
    pub word: u32,
    pub lockers: Seq<LockerPc>,
}

pub open spec fn lock_init(s: LockState) -> bool {
    &&& s.word == UNLOCKED
    &&& forall|k: int| 0 <= k < s.lockers.len() ==> #[trigger] s.lockers[k] is Idle
}

/// The locker after its attempt decided `action`, leaving it in `phase`.
pub open spec fn after_action(phase: LockPhase, action: LockAction) -> LockerPc {
    match action {
        LockAction::Acquired => LockerPc::Holding,
        LockAction::Failed => LockerPc::Idle,
        _ => LockerPc::Pending(phase),
    }
}

/// The result of `compare_exchange(current, new)` on `word`, and the word after it.
pub open spec fn exchange(word: u32, current: u32, new: u32) -> (Result<u32, u32>, u32) {
    if word == current {
        (Ok(word), new)
    } else {
        (Err(word), word)
    }
}

/// One step of locker `i`; `j` is the sleeper a wake picks.
pub open spec fn locker_step(s: LockState, t: LockState, i: int, j: int) -> bool {
    &&& 0 <= i < s.lockers.len()
    &&& t.lockers.len() == s.lockers.len()
    &&& match s.lockers[i] {
        LockerPc::Idle => t.word == s.word && t.lockers == s.lockers.update(
            i,
            LockerPc::Pending(LockPhase::Trying),
        ),
        LockerPc::Pending(LockPhase::Trying) => {
            let (r, word) = exchange(s.word, UNLOCKED, LOCKED);
            let (phase, action) = lock_step(LockPhase::Trying, LockEvent::Exchanged(r));
            t.word == word && t.lockers == s.lockers.update(i, after_action(phase, action))
        },
        LockerPc::Pending(LockPhase::Marking) => {
            let (r, word) = exchange(s.word, LOCKED, CONTENDED);
            let (phase, action) = lock_step(LockPhase::Marking, LockEvent::Exchanged(r));
            t.word == word && t.lockers == s.lockers.update(i, after_action(phase, action))
        },
        LockerPc::Pending(LockPhase::Sleeping) => {
            &&& t.word == s.word
            &&& {
                // the kernel compares the word with CONTENDED atomically
                ||| s.word == CONTENDED && t.lockers == s.lockers.update(i, LockerPc::Asleep)
                ||| s.word != CONTENDED && {
                    let (phase, action) = lock_step(
                        LockPhase::Sleeping,
                        LockEvent::Waited(Some(FutexErrno::WouldBlock)),
                    );
                    t.lockers == s.lockers.update(i, after_action(phase, action))
                }
                // or the call is interrupted, or fails
                ||| {
                    let (phase, action) = lock_step(
                        LockPhase::Sleeping,
                        LockEvent::Waited(Some(FutexErrno::Interrupted)),
                    );
                    t.lockers == s.lockers.update(i, after_action(phase, action))
                }
                ||| {
                    let (phase, action) = lock_step(
                        LockPhase::Sleeping,
                        LockEvent::Waited(Some(FutexErrno::Other)),
                    );
                    t.lockers == s.lockers.update(i, after_action(phase, action))
                }
            }
        },
        LockerPc::Pending(LockPhase::Done) => false,
        LockerPc::Asleep => {
            // a spurious wakeup or a signal
            let (phase, action) = lock_step(LockPhase::Sleeping, LockEvent::Waited(None));
            t.word == s.word && t.lockers == s.lockers.update(i, after_action(phase, action))
        },
        LockerPc::Holding => {
            &&& t.word == UNLOCKED
            &&& t.lockers == s.lockers.update(
                i,
                if s.word == CONTENDED {
                    LockerPc::Waking
                } else {
                    LockerPc::Idle
                },
            )
        },
        LockerPc::Waking => {
            &&& t.word == s.word
            &&& {
                ||| {
                    &&& 0 <= j < s.lockers.len()
                    &&& s.lockers[j] is Asleep
                    &&& t.lockers == s.lockers.update(i, LockerPc::Idle).update(
                        j,
                        LockerPc::Pending(LockPhase::Trying),
                    )
                }
                ||| {
                    &&& forall|k: int| 0 <= k < s.lockers.len() ==> !(#[trigger] s.lockers[k] is Asleep)
                    &&& t.lockers == s.lockers.update(i, LockerPc::Idle)
                }
            }
        },
    }
}

/// At most one locker holds the lock, and while one does the word is not
/// `UNLOCKED`.
pub open spec fn exclusive(s: LockState) -> bool {
    &&& s.word == UNLOCKED || s.word == LOCKED || s.word == CONTENDED
    &&& forall|k: int| 0 <= k < s.lockers.len() && #[trigger] s.lockers[k] is Holding ==> s.word != UNLOCKED
    &&& forall|k: int, l: int|
        0 <= k < s.lockers.len() && 0 <= l < s.lockers.len() && #[trigger] s.lockers[k] is Holding
            && #[trigger] s.lockers[l] is Holding ==> k == l
    &&& forall|k: int| 0 <= k < s.lockers.len() ==> !(#[trigger] s.lockers[k] is Pending && s.lockers[k]->0 is Done)
}

/// Mutual exclusion: whatever the number of lockers, it holds initially and
/// every step of any locker keeps it.
pub proof fn law_mutual_exclusion(s: LockState, t: LockState, i: int, j: int)
    ensures
        lock_init(s) ==> exclusive(s),
        exclusive(s) && locker_step(s, t, i, j) ==> exclusive(t),
{
    if exclusive(s) && locker_step(s, t, i, j) {
        assert forall|k: int|
            0 <= k < t.lockers.len() && #[trigger] t.lockers[k] is Holding implies t.word != UNLOCKED by {
            if k != i && !(s.lockers[i] is Waking && k == j) {
                assert(s.lockers[k] == t.lockers[k]);
            }
        }
        assert forall|k: int, l: int|
            0 <= k < t.lockers.len() && 0 <= l < t.lockers.len() && #[trigger] t.lockers[k] is Holding
                && #[trigger] t.lockers[l] is Holding implies k == l by {
            if k != i && !(s.lockers[i] is Waking && k == j) {
                assert(s.lockers[k] == t.lockers[k]);
            }
            if l != i && !(s.lockers[i] is Waking && l == j) {
                assert(s.lockers[l] == t.lockers[l]);
            }
        }
        assert forall|k: int| 0 <= k < t.lockers.len() implies !(#[trigger] t.lockers[k] is Pending
            && t.lockers[k]->0 is Done) by {
            if k != i && !(s.lockers[i] is Waking && k == j) {
                assert(s.lockers[k] == t.lockers[k]);
            }
        }
    }
}

/// Two lockers: beyond exclusion, a taken word means a holder, and a locker
/// asleep on the word will be woken by the other, which either holds the lock
/// with the word `CONTENDED` (so its release wakes) or is about to wake.
pub open spec fn two_lockers_inv(s: LockState) -> bool {
    &&& s.lockers.len() == 2
    &&& exclusive(s)
    &&& s.word != UNLOCKED ==> s.lockers[0] is Holding || s.lockers[1] is Holding
    &&& s.lockers[0] is Asleep ==> (s.lockers[1] is Holding && s.word == CONTENDED) || s.lockers[1] is Waking
    &&& s.lockers[1] is Asleep ==> (s.lockers[0] is Holding && s.word == CONTENDED) || s.lockers[0] is Waking
}

/// No lost wakeup between two lockers: the invariant holds initially and
/// every step keeps it, so a sleeping locker always has a release or a wake
/// coming. With three lockers this does not hold: a woken locker retakes
/// the word as `LOCKED`, not `CONTENDED`, so its release wakes nobody while
/// a third locker still sleeps.
pub proof fn law_two_lockers_wake(s: LockState, t: LockState, i: int, j: int)
    requires
        s.lockers.len() == 2,
    ensures
        lock_init(s) ==> two_lockers_inv(s),
        two_lockers_inv(s) && locker_step(s, t, i, j) ==> two_lockers_inv(t),
{
    law_mutual_exclusion(s, t, i, j);
    if lock_init(s) {
        assert(s.lockers[0] is Idle);
        assert(s.lockers[1] is Idle);
    }
    if two_lockers_inv(s) && locker_step(s, t, i, j) {
        assert(s.lockers[0] is Holding ==> s.word != UNLOCKED);
        assert(s.lockers[1] is Holding ==> s.word != UNLOCKED);
        assert(!(s.lockers[0] is Holding && s.lockers[1] is Holding));
    }
}

} // verus!
