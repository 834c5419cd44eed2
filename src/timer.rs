use vstd::prelude::*;

use crate::progress::Progress;
use crate::progress::Task;
use std::time::Duration;
use std::time::Instant;

verus! {

/// A point on the monotonic clock, carried through unread.
#[verifier::external_type_specification]
#[verifier::external_body]
pub struct ExInstant(Instant);

/// Relies on `Instant::now`: reads the monotonic clock; nothing is known of the value.
pub assume_specification[ Instant::now ]() -> Instant;

/// Relies on `Instant::elapsed`: the time since `self` on the monotonic clock,
/// which depends on when it is called, so nothing is stated of it.
pub assume_specification[ Instant::elapsed ](i: &Instant) -> Duration;

/// Relies on `Duration::as_nanos`: the whole span in nanoseconds; stated of no
/// particular value, since a `Duration` is opaque here.
pub assume_specification[ Duration::as_nanos ](d: &Duration) -> u128;

/// A suspension that finishes once a fixed span has passed since it was made.
///
/// The deadline is fixed at creation: the start instant plus the span.
pub struct Timer {
    started: Instant,
    wait_nanos: u128,
    polls: Ghost<nat>,
    finished_on: Ghost<Option<nat>>,
}

/// Whether a timer that waits `wait_nanos` has passed its deadline once
/// `elapsed_nanos` have gone by since it was made.
pub open spec fn deadline_passed(wait_nanos: u128, elapsed_nanos: u128) -> bool {
    elapsed_nanos >= wait_nanos
}

/// A timer that finishes once `wait_nanos` nanoseconds have passed from now.
pub fn sleep(wait_nanos: u128) -> (r: Timer)
    ensures
        r.wait() == wait_nanos,
        r.polls() == 0,
        r.finished() is None,
{
    Timer { started: Instant::now(), wait_nanos, polls: Ghost(0), finished_on: Ghost(None) }
}

impl Timer {
    /// The span this timer waits, in nanoseconds.
    pub closed spec fn wait(&self) -> u128 {
        self.wait_nanos
    }

    /// The span this timer waits, in nanoseconds.
    pub fn wait_nanos(&self) -> (r: u128)
        ensures
            r == self.wait(),
    {
        self.wait_nanos
    }

    /// Attempts progress given the time that has passed since the timer was made:
    /// finished exactly when the deadline has been reached.
    pub fn poll_after(&self, elapsed_nanos: u128) -> (r: Progress<()>)
        ensures
            (r is Ready) == deadline_passed(self.wait(), elapsed_nanos),
    {
        if elapsed_nanos < self.wait_nanos {
            return Progress::Pending;
        }
        Progress::Ready(())
    }

    /// Attempts progress against the monotonic clock; a zero span is finished
    /// whatever the clock reads.
    pub fn poll(&self) -> (r: Progress<()>)
        ensures
            self.wait() == 0 ==> r is Ready,
    {
        let elapsed = self.started.elapsed();
        let nanos = elapsed.as_nanos();
        self.poll_after(nanos)
    }
}

impl Task for Timer {
    type Output = ();

    open spec fn tracks_polls(&self) -> bool {
        true
    }

    closed spec fn polls(&self) -> nat {
        self.polls@
    }

    closed spec fn finished(&self) -> Option<(nat, ())> {
        match self.finished_on@ {
            Some(n) => Some((n, ())),
            None => None,
        }
    }

    /// A zero span finishes on the first poll; otherwise the clock decides.
    open spec fn pending_polls(&self) -> Option<nat> {
        if self.wait() == 0 {
            Some(0)
        } else {
            None
        }
    }

    fn poll_task(&mut self) -> Progress<()> {
        let r = self.poll();
        proof {
            self.polls = Ghost(self.polls@ + 1);
            if r is Ready && self.finished_on@ is None {
                self.finished_on = Ghost(Some(self.polls@));
            }
        }
        r
    }
}

/// A timer reports a final result only once the time since its creation is at
/// least its span, and once its deadline has passed it stays passed.
pub proof fn lemma_deadline_monotonic(wait_nanos: u128, earlier: u128, later: u128)
    requires
        earlier <= later,
    ensures
        deadline_passed(wait_nanos, earlier) <==> earlier >= wait_nanos,
        deadline_passed(wait_nanos, earlier) ==> deadline_passed(wait_nanos, later),
{
}

} // verus!
