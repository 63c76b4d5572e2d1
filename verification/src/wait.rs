//! How a side of the channel waits for its peer: it busy-waits for a
//! bounded number of rounds, then announces itself in its contention flag,
//! looks once more, and only then parks on the futex. After every action the
//! caller looks at the peer's position again and reports whether it may go on.
use vstd::prelude::*;

verus! {

/// The next thing a waiting side does.
#[derive(Debug, Clone, Copy, PartialEq, Eq, Structural)]
pub enum WaitAction {
    /// The peer is ready: stop waiting. When `clear_flag` is set the spin
    /// budget was used up, so the contention flag must be reset to 0.
    Proceed { clear_flag: bool },
    /// Busy-wait one round, then look again.
    Spin,
    /// Set the contention flag to 1, fence, then look again.
    Announce,
    /// Sleep on the peer's futex until woken, then look again.
    Sleep,
    /// The futex wait failed: reset the contention flag to 0 and report the
    /// wait's error; the wait is over.
    GiveUp,
}

/// The state of one wait: spin rounds left, and whether the last action was
/// to announce contention (so that the next look is the recheck).
pub open spec fn wait_step(remaining: nat, announced: bool, ready: bool) -> (nat, bool, WaitAction) {
    if ready {
        (remaining, announced, WaitAction::Proceed { clear_flag: remaining == 0 })
    } else if announced {
        (remaining, false, WaitAction::Sleep)
    } else if remaining == 0 {
        (remaining, true, WaitAction::Announce)
    } else {
        ((remaining - 1) as nat, false, WaitAction::Spin)
    }
}

/// The state after `k` looks that all found the peer not ready.
pub open spec fn wait_unready(remaining: nat, announced: bool, k: nat) -> (nat, bool)
    decreases k,
{
    if k == 0 {
        (remaining, announced)
    } else {
        let prev = wait_unready(remaining, announced, (k - 1) as nat);
        let next = wait_step(prev.0, prev.1, false);
        (next.0, next.1)
    }
}

/// One wait for the peer.
pub struct SpinWait {
    remaining: u32,
    announced: bool,
    /// Whether the last action was to sleep.
    sleeping: bool,
}

impl SpinWait {
    pub closed spec fn remaining_spec(&self) -> nat {
        self.remaining as nat
    }

    pub closed spec fn announced_spec(&self) -> bool {
        self.announced
    }

    pub closed spec fn sleeping_spec(&self) -> bool {
        self.sleeping
    }

    /// A wait that may spin `spin_limit` rounds before parking.
    pub fn new(spin_limit: u32) -> (w: Self)
        ensures
            w.remaining_spec() == spin_limit,
            !w.announced_spec(),
            !w.sleeping_spec(),
    {
        Self { remaining: spin_limit, announced: false, sleeping: false }
    }

    /// Decides the next action from whether the last look found the peer
    /// ready. A side parks only right after announcing itself and finding
    /// the peer still not ready.
    pub fn next(&mut self, ready: bool) -> (action: WaitAction)
        ensures
            (final(self).remaining_spec(), final(self).announced_spec(), action) == wait_step(
                old(self).remaining_spec(),
                old(self).announced_spec(),
                ready,
            ),
            action is Sleep ==> old(self).announced_spec() && !ready,
            action is Announce ==> !ready && old(self).remaining_spec() == 0,
            action is Proceed <==> ready,
            final(self).sleeping_spec() == (action is Sleep),
    {
        self.sleeping = false;
        if ready {
            WaitAction::Proceed { clear_flag: self.remaining == 0 }
        } else if self.announced {
            self.announced = false;
            self.sleeping = true;
            WaitAction::Sleep
        } else if self.remaining == 0 {
            self.announced = true;
            WaitAction::Announce
        } else {
            self.remaining = self.remaining - 1;
            WaitAction::Spin
        }
    }

    /// Decides what follows a futex wait that failed (for example, timed
    /// out): give up, clearing the contention flag, which was set before the
    /// sleep. The spin budget stays spent.
    pub fn sleep_failed(&mut self) -> (action: WaitAction)
        requires
            old(self).sleeping_spec(),
        ensures
            action == WaitAction::GiveUp,
            !final(self).sleeping_spec(),
            !final(self).announced_spec(),
            final(self).remaining_spec() == old(self).remaining_spec(),
    {
        self.sleeping = false;
        self.announced = false;
        WaitAction::GiveUp
    }
}

/// After moving its own position, a side wakes its peer exactly when the
/// peer's contention flag is set, that is, when the peer may be parked.
pub fn peer_is_waiting(contended_flag: u32) -> (wake: bool)
    ensures
        wake == (contended_flag != 0),
{
    contended_flag != 0
}

/// A side that keeps finding its peer not ready spins exactly `spin_limit`
/// rounds, then announces itself and sleeps, in turn, for as long as it
/// waits: it never parks before the spin budget is spent, and every sleep
/// directly follows an announcement and a fresh look.
pub proof fn law_spin_then_park(spin_limit: nat, k: nat)
    ensures
        ({
            let s = wait_unready(spin_limit, false, k);
            let a = wait_step(s.0, s.1, false).2;
            &&& k < spin_limit ==> a == WaitAction::Spin && s == ((spin_limit - k) as nat, false)
            &&& k >= spin_limit && (k - spin_limit) % 2 == 0 ==> a == WaitAction::Announce && s == (
                0nat,
                false,
            )
            &&& k >= spin_limit && (k - spin_limit) % 2 == 1 ==> a == WaitAction::Sleep && s == (
                0nat,
                true,
            )
        }),
    decreases k,
{
    if k > 0 {
        law_spin_then_park(spin_limit, (k - 1) as nat);
    }
}

/// Once the peer is ready the wait ends, and the contention flag is to be
/// cleared exactly when the spin budget was spent.
pub proof fn law_proceed_when_ready(remaining: nat, announced: bool)
    ensures
        wait_step(remaining, announced, true).2 == (WaitAction::Proceed { clear_flag: remaining == 0 }),
{
}

} // verus!
