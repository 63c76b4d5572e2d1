//! A mutex whose whole state is one futex word, so that it can live in
//! memory shared between processes. The word is `UNLOCKED`, `LOCKED`, or
//! `CONTENDED` (locked, and someone may be asleep waiting for it).
//!
//! The decisions of taking the lock are a small state machine: the caller
//! performs each action on the word (an exchange or a futex wait) and
//! reports what happened.
use crate::futex::{atomic_u32_new, new_atomic_u32, FutexErrno};
use core::cell::UnsafeCell;
use core::sync::atomic::AtomicU32;
use vstd::prelude::*;

verus! {

pub const UNLOCKED: u32 = 0;

pub const LOCKED: u32 = 1;

pub const CONTENDED: u32 = 2;

/// `core::cell::UnsafeCell`, carried through unexamined.
#[verifier::external_type_specification]
#[verifier::external_body]
#[verifier::reject_recursive_types(T)]
pub struct ExUnsafeCell<T: ?Sized>(UnsafeCell<T>);

/// `UnsafeCell::new`: wraps the value; nothing is stated of the result.
pub assume_specification<T>[ UnsafeCell::<T>::new ](value: T) -> UnsafeCell<T>;

#[verifier::reject_recursive_types(T)]
pub struct SharedMutex<T> {
    state: AtomicU32,
    data: UnsafeCell<T>,
}

impl<T> SharedMutex<T> {
    pub closed spec fn state_spec(&self) -> AtomicU32 {
        self.state
    }

    pub closed spec fn data_spec(&self) -> UnsafeCell<T> {
        self.data
    }

    /// An unlocked mutex holding `data`.
    pub fn new(data: T) -> (m: Self)
        ensures
            m.state_spec() == new_atomic_u32(UNLOCKED),
    {
        Self { state: atomic_u32_new(UNLOCKED), data: UnsafeCell::new(data) }
    }

    /// The lock word.
    pub fn state(&self) -> (s: &AtomicU32)
        ensures
            *s == self.state_spec(),
    {
        &self.state
    }

    /// The protected value.
    pub fn data(&self) -> (d: &UnsafeCell<T>)
        ensures
            *d == self.data_spec(),
    {
        &self.data
    }

    /// Releasing the lock swaps `UNLOCKED` into the word; the previous
    /// value says whether a waiter may be asleep and must be woken.
    pub fn unlock_needs_wake(previous: u32) -> (wake: bool)
        ensures
            wake == (previous == CONTENDED),
    {
        previous == CONTENDED
    }
}

/// The next step of taking the lock.
#[derive(Debug, Clone, Copy, PartialEq, Eq, Structural)]
pub enum LockAction {
    /// `compare_exchange(UNLOCKED, LOCKED)` on the word, then report it.
    TryLock,
    /// `compare_exchange(LOCKED, CONTENDED)` on the word, then report it.
    MarkContended,
    /// Futex-wait on the word while it is `CONTENDED`, then report it.
    Sleep,
    /// The lock is held.
    Acquired,
    /// The wait failed with an error that is not retried.
    Failed,
}

/// What happened when the caller performed the last action.
#[derive(Debug, Clone, Copy)]
pub enum LockEvent {
    /// The result of a compare-exchange: `Ok` with the old value when it
    /// stored the new one, `Err` with the value found otherwise.
    Exchanged(Result<u32, u32>),
    /// The futex wait returned; `error` is `Some` when it failed.
    Waited(Option<FutexErrno>),
}

/// The action a lock attempt is waiting on the result of.
#[derive(Debug, Clone, Copy, PartialEq, Eq, Structural)]
pub enum LockPhase {
    Trying,
    Marking,
    Sleeping,
    Done,
}

/// Whether `event` is a report of the action issued in `phase`.
pub open spec fn event_fits(phase: LockPhase, event: LockEvent) -> bool {
    match phase {
        LockPhase::Trying | LockPhase::Marking => event is Exchanged,
        LockPhase::Sleeping => event is Waited,
        LockPhase::Done => false,
    }
}

/// One transition of a lock attempt.
pub open spec fn lock_step(phase: LockPhase, event: LockEvent) -> (LockPhase, LockAction) {
    match (phase, event) {
        (LockPhase::Trying, LockEvent::Exchanged(Ok(_))) => (LockPhase::Done, LockAction::Acquired),
        (LockPhase::Trying, LockEvent::Exchanged(Err(_))) => (
            LockPhase::Marking,
            LockAction::MarkContended,
        ),
        (LockPhase::Marking, LockEvent::Exchanged(Err(found))) if found != CONTENDED => (
            LockPhase::Trying,
            LockAction::TryLock,
        ),
        (LockPhase::Marking, LockEvent::Exchanged(_)) => (LockPhase::Sleeping, LockAction::Sleep),
        (LockPhase::Sleeping, LockEvent::Waited(Some(FutexErrno::Other))) => (
            LockPhase::Done,
            LockAction::Failed,
        ),
        (LockPhase::Sleeping, LockEvent::Waited(_)) => (LockPhase::Trying, LockAction::TryLock),
        _ => (phase, LockAction::Failed),
    }
}

/// One attempt to take a `SharedMutex`.
pub struct LockAttempt {
    phase: LockPhase,
}

impl LockAttempt {
    pub closed spec fn phase(&self) -> LockPhase {
        self.phase
    }

    /// Starts an attempt; its first action is `TryLock`.
    pub fn start() -> (res: (Self, LockAction))
        ensures
            res.0.phase() == LockPhase::Trying,
            res.1 == LockAction::TryLock,
    {
        (Self { phase: LockPhase::Trying }, LockAction::TryLock)
    }

    /// Decides the next action from the result of the last one. The lock
    /// counts as acquired only when the word was exchanged from `UNLOCKED`
    /// to `LOCKED`; the attempt sleeps only once the word was seen or made
    /// `CONTENDED`, so that the holder's unlock wakes it; interrupted or
    /// outdated waits are retried from the start.
    pub fn next(&mut self, event: LockEvent) -> (action: LockAction)
        requires
            event_fits(old(self).phase(), event),
        ensures
            (final(self).phase(), action) == lock_step(old(self).phase(), event),
            action == LockAction::Acquired ==> old(self).phase() == LockPhase::Trying
                && event is Exchanged && event->Exchanged_0 is Ok,
            action == LockAction::Sleep ==> old(self).phase() == LockPhase::Marking && (
            event->Exchanged_0 is Ok || event->Exchanged_0 == Err::<u32, u32>(CONTENDED)),
            action == LockAction::Failed ==> event == LockEvent::Waited(Some(FutexErrno::Other)),
    {
        let (phase, action) = match (self.phase, event) {
            (LockPhase::Trying, LockEvent::Exchanged(Ok(_))) => (
                LockPhase::Done,
                LockAction::Acquired,
            ),
            (LockPhase::Trying, LockEvent::Exchanged(Err(_))) => (
                LockPhase::Marking,
                LockAction::MarkContended,
            ),
            (LockPhase::Marking, LockEvent::Exchanged(Err(found))) if found != CONTENDED => (
                LockPhase::Trying,
                LockAction::TryLock,
            ),
            (LockPhase::Marking, LockEvent::Exchanged(_)) => (
                LockPhase::Sleeping,
                LockAction::Sleep,
            ),
            (LockPhase::Sleeping, LockEvent::Waited(Some(FutexErrno::Other))) => (
                LockPhase::Done,
                LockAction::Failed,
            ),
            (LockPhase::Sleeping, LockEvent::Waited(_)) => (LockPhase::Trying, LockAction::TryLock),
            _ => (self.phase, LockAction::Failed),
        };
        self.phase = phase;
        action
    }
}

} // verus!
