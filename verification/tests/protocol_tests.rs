use simple_shmem::cmsg::{check_fd_cmsg_header, FdCmsgError};
use simple_shmem::futex::{
    timespec_from_duration, timespec_from_parts, Futex, FutexErrno, RetryOutcome, Timespec,
};
use simple_shmem::layout::page_aligned_size;
use simple_shmem::shared_mutex::{LockAction, LockAttempt, LockEvent, SharedMutex, CONTENDED, LOCKED, UNLOCKED};
use simple_shmem::wait::{SpinWait, WaitAction};
use std::sync::atomic::Ordering;
use std::time::Duration;

#[test]
fn wait_proceeds_at_once_when_ready() {
    let mut w = SpinWait::new(3);
    assert_eq!(w.next(true), WaitAction::Proceed { clear_flag: false });
}

#[test]
fn wait_spins_then_announces_then_sleeps() {
    let mut w = SpinWait::new(2);
    assert_eq!(w.next(false), WaitAction::Spin);
    assert_eq!(w.next(false), WaitAction::Spin);
    assert_eq!(w.next(false), WaitAction::Announce);
    assert_eq!(w.next(false), WaitAction::Sleep);
    assert_eq!(w.next(false), WaitAction::Announce);
    assert_eq!(w.next(false), WaitAction::Sleep);
    assert_eq!(w.next(true), WaitAction::Proceed { clear_flag: true });
}

#[test]
fn wait_recheck_after_announce_can_proceed() {
    let mut w = SpinWait::new(0);
    assert_eq!(w.next(false), WaitAction::Announce);
    assert_eq!(w.next(true), WaitAction::Proceed { clear_flag: true });
}

#[test]
fn wait_with_zero_limit_clears_even_without_waiting() {
    let mut w = SpinWait::new(0);
    assert_eq!(w.next(true), WaitAction::Proceed { clear_flag: true });
}

#[test]
fn lock_uncontended() {
    let (mut a, first) = LockAttempt::start();
    assert_eq!(first, LockAction::TryLock);
    assert_eq!(a.next(LockEvent::Exchanged(Ok(UNLOCKED))), LockAction::Acquired);
}

#[test]
fn lock_contended_sleeps_and_retries() {
    let (mut a, _) = LockAttempt::start();
    assert_eq!(a.next(LockEvent::Exchanged(Err(LOCKED))), LockAction::MarkContended);
    assert_eq!(a.next(LockEvent::Exchanged(Ok(LOCKED))), LockAction::Sleep);
    assert_eq!(a.next(LockEvent::Waited(None)), LockAction::TryLock);
    assert_eq!(a.next(LockEvent::Exchanged(Err(CONTENDED))), LockAction::MarkContended);
    assert_eq!(a.next(LockEvent::Exchanged(Err(CONTENDED))), LockAction::Sleep);
    assert_eq!(a.next(LockEvent::Waited(Some(FutexErrno::Interrupted))), LockAction::TryLock);
    assert_eq!(a.next(LockEvent::Exchanged(Err(CONTENDED))), LockAction::MarkContended);
    assert_eq!(a.next(LockEvent::Exchanged(Err(UNLOCKED))), LockAction::TryLock);
    assert_eq!(a.next(LockEvent::Exchanged(Ok(UNLOCKED))), LockAction::Acquired);
}

#[test]
fn lock_wait_error_fails() {
    let (mut a, _) = LockAttempt::start();
    assert_eq!(a.next(LockEvent::Exchanged(Err(CONTENDED))), LockAction::MarkContended);
    assert_eq!(a.next(LockEvent::Exchanged(Err(CONTENDED))), LockAction::Sleep);
    assert_eq!(a.next(LockEvent::Waited(Some(FutexErrno::WouldBlock))), LockAction::TryLock);
    assert_eq!(a.next(LockEvent::Exchanged(Err(LOCKED))), LockAction::MarkContended);
    assert_eq!(a.next(LockEvent::Exchanged(Ok(LOCKED))), LockAction::Sleep);
    assert_eq!(a.next(LockEvent::Waited(Some(FutexErrno::Other))), LockAction::Failed);
}

#[test]
fn unlock_wakes_only_when_contended() {
    assert!(SharedMutex::<u8>::unlock_needs_wake(CONTENDED));
    assert!(!SharedMutex::<u8>::unlock_needs_wake(LOCKED));
    assert!(!SharedMutex::<u8>::unlock_needs_wake(UNLOCKED));
}

#[test]
fn shared_mutex_starts_unlocked() {
    let m = SharedMutex::new(5u64);
    assert_eq!(m.state().load(Ordering::SeqCst), UNLOCKED);
}

#[test]
fn futex_holds_its_value() {
    let f = Futex::new(42);
    assert_eq!(f.load(Ordering::SeqCst), 42);
    let d = Futex::default();
    assert_eq!(d.load(Ordering::SeqCst), 0);
}

#[test]
fn futex_wait_and_wake_results() {
    assert!(Futex::failed_wait_is_ok(FutexErrno::WouldBlock));
    assert!(!Futex::failed_wait_is_ok(FutexErrno::Interrupted));
    assert!(!Futex::failed_wait_is_ok(FutexErrno::Other));
    assert_eq!(Futex::wake_result(-1), None);
    assert_eq!(Futex::wake_result(0), Some(0));
    assert_eq!(Futex::wake_result(3), Some(3));
}

#[test]
fn timespec_conversion() {
    assert_eq!(
        timespec_from_duration(&Duration::new(3, 500)),
        Timespec { tv_sec: 3, tv_nsec: 500 }
    );
    assert_eq!(
        timespec_from_duration(&Duration::from_millis(1500)),
        Timespec { tv_sec: 1, tv_nsec: 500_000_000 }
    );
    assert_eq!(timespec_from_parts(u64::MAX, 1), Timespec { tv_sec: -1, tv_nsec: 1 });
}

#[test]
fn page_alignment() {
    assert_eq!(page_aligned_size(0, 4096), 0);
    assert_eq!(page_aligned_size(1, 4096), 4096);
    assert_eq!(page_aligned_size(4096, 4096), 4096);
    assert_eq!(page_aligned_size(4097, 4096), 8192);
    assert_eq!(page_aligned_size(40, 4096), 4096);
}

#[test]
fn failed_sleep_gives_up() {
    let mut w = SpinWait::new(1);
    assert_eq!(w.next(false), WaitAction::Spin);
    assert_eq!(w.next(false), WaitAction::Announce);
    assert_eq!(w.next(false), WaitAction::Sleep);
    assert_eq!(w.sleep_failed(), WaitAction::GiveUp);
}

#[test]
fn fd_cmsg_header_checks() {
    assert_eq!(check_fd_cmsg_header(1, 1, 20, 1, 1, 20), Ok(()));
    assert_eq!(
        check_fd_cmsg_header(0, 1, 20, 1, 1, 20),
        Err(FdCmsgError::UnexpectedType)
    );
    assert_eq!(
        check_fd_cmsg_header(1, 2, 16, 1, 1, 20),
        Err(FdCmsgError::UnexpectedType)
    );
    assert_eq!(
        check_fd_cmsg_header(1, 1, 16, 1, 1, 20),
        Err(FdCmsgError::UnexpectedLength)
    );
    assert_eq!(
        FdCmsgError::UnexpectedLength.message(),
        "Unexpected control message length for file descriptor"
    );
}

#[test]
fn retrying_wait_outcomes() {
    assert_eq!(Futex::retry_wait_outcome(None), RetryOutcome::Done);
    assert_eq!(Futex::retry_wait_outcome(Some(FutexErrno::WouldBlock)), RetryOutcome::Done);
    assert_eq!(Futex::retry_wait_outcome(Some(FutexErrno::Interrupted)), RetryOutcome::Retry);
    assert_eq!(Futex::retry_wait_outcome(Some(FutexErrno::Other)), RetryOutcome::Fail);
}
