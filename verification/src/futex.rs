//! The 32-bit word that a side of the channel sleeps on, and the timeout
//! format the futex call takes. The futex calls themselves are system calls
//! made by the caller.
use core::ops::Deref;
use core::sync::atomic::AtomicU32;
use core::time::Duration;
use vstd::prelude::*;

verus! {

/// The atomic that `AtomicU32::new(value)` creates: a 32-bit word holding
/// `value`. vstd models no contents of an atomic, so the new atomic is
/// known by this name.
pub uninterp spec fn new_atomic_u32(value: u32) -> AtomicU32;

/// `AtomicU32::new`: a new atomic word holding `value`.
#[verifier::external_body]
pub(crate) fn atomic_u32_new(value: u32) -> (a: AtomicU32)
    ensures
        a == new_atomic_u32(value),
{
    AtomicU32::new(value)
}

/// A futex word.
#[derive(Default, Debug)]
pub struct Futex(AtomicU32);

impl Futex {
    /// The atomic word itself.
    pub closed spec fn word(&self) -> AtomicU32 {
        self.0
    }

    /// A futex word holding `value`.
    pub fn new(value: u32) -> (f: Self)
        ensures
            f.word() == new_atomic_u32(value),
    {
        Self(atomic_u32_new(value))
    }
}

impl Deref for Futex {
    type Target = AtomicU32;

    fn deref(&self) -> (a: &AtomicU32)
        ensures
            *a == self.word(),
    {
        &self.0
    }
}

/// A timeout as the futex call takes it: whole seconds and nanoseconds.
#[derive(Debug, Clone, Copy, PartialEq, Eq, Structural)]
pub struct Timespec {
    pub tv_sec: i64,
    pub tv_nsec: i64,
}

/// The whole seconds of `duration`, as `Duration::as_secs` returns them.
pub uninterp spec fn duration_as_secs(duration: Duration) -> u64;

/// The fractional part of `duration` in nanoseconds, as
/// `Duration::subsec_nanos` returns it.
pub uninterp spec fn duration_subsec_nanos_of(duration: Duration) -> u32;

/// `Duration::as_secs`: the whole seconds of the duration.
#[verifier::external_body]
fn duration_secs(duration: &Duration) -> (secs: u64)
    ensures
        secs == duration_as_secs(*duration),
{
    duration.as_secs()
}

/// `Duration::subsec_nanos`: the fractional part in nanoseconds, which the
/// documentation promises is below one billion.
#[verifier::external_body]
fn duration_subsec_nanos(duration: &Duration) -> (nanos: u32)
    ensures
        nanos == duration_subsec_nanos_of(*duration),
        nanos < 1_000_000_000,
{
    duration.subsec_nanos()
}

/// The timeout for `secs` seconds and `nanos` nanoseconds; the seconds are
/// converted with `as`, so counts beyond `i64::MAX` wrap.
pub fn timespec_from_parts(secs: u64, nanos: u32) -> (t: Timespec)
    ensures
        t.tv_sec == secs as i64,
        t.tv_nsec == nanos as i64,
{
    Timespec { tv_sec: secs as i64, tv_nsec: nanos as i64 }
}

/// The timeout for `duration`: its whole seconds (converted with `as`) and
/// its fractional nanoseconds.
pub fn timespec_from_duration(duration: &Duration) -> (t: Timespec)
    ensures
        t.tv_sec == duration_as_secs(*duration) as i64,
        t.tv_nsec == duration_subsec_nanos_of(*duration) as i64,
        0 <= t.tv_nsec < 1_000_000_000,
{
    let secs = duration_secs(duration);
    let nanos = duration_subsec_nanos(duration);
    timespec_from_parts(secs, nanos)
}

/// The kind of error a failed futex call reported.
#[derive(Debug, Clone, Copy, PartialEq, Eq, Structural)]
pub enum FutexErrno {
    /// `EAGAIN`: the word no longer held the expected value.
    WouldBlock,
    /// `EINTR`: a signal interrupted the call.
    Interrupted,
    /// Any other error.
    Other,
}

/// What a waiter that retries interrupted futex waits does after one call.
#[derive(Debug, Clone, Copy, PartialEq, Eq, Structural)]
pub enum RetryOutcome {
    /// Interrupted by a signal: wait again.
    Retry,
    /// Woken, or the word had already changed: the wait is over.
    Done,
    /// Any other error: report it.
    Fail,
}

impl Futex {
    /// The outcome of a futex wait for a waiter that retries interrupted
    /// waits, given the error the call failed with (`None` when it
    /// returned normally): a signal makes it wait again, a changed word
    /// counts as a normal return, every other error is reported.
    pub fn retry_wait_outcome(error: Option<FutexErrno>) -> (r: RetryOutcome)
        ensures
            error == Some(FutexErrno::Interrupted) ==> r == RetryOutcome::Retry,
            error is None || error == Some(FutexErrno::WouldBlock) ==> r == RetryOutcome::Done,
            error == Some(FutexErrno::Other) ==> r == RetryOutcome::Fail,
    {
        match error {
            None => RetryOutcome::Done,
            Some(FutexErrno::WouldBlock) => RetryOutcome::Done,
            Some(FutexErrno::Interrupted) => RetryOutcome::Retry,
            Some(FutexErrno::Other) => RetryOutcome::Fail,
        }
    }

    /// Whether a futex wait that failed with `errno` still counts as a
    /// normal return: the word had already changed, which is what the
    /// waiter waits for. Every other error is reported to the caller.
    pub fn failed_wait_is_ok(errno: FutexErrno) -> (ok: bool)
        ensures
            ok == (errno == FutexErrno::WouldBlock),
    {
        match errno {
            FutexErrno::WouldBlock => true,
            _ => false,
        }
    }

    /// The result of a futex wake that returned `status`: -1 is a failure,
    /// anything else is the number of waiters woken.
    pub fn wake_result(status: i64) -> (woken: Option<u32>)
        ensures
            status == -1 ==> woken is None,
            status != -1 ==> woken == Some(status as u32),
    {
        if status == -1 {
            None
        } else {
            Some(status as u32)
        }
    }
}

} // verus!
