use vstd::prelude::*;

use crate::progress::Progress;
use crate::progress::Task;

verus! {

/// A suspension that reports "not ready" exactly once and then finishes.
pub struct YieldNow {
    yielded: bool,
    polls: Ghost<nat>,
    finished_on: Ghost<Option<nat>>,
}

/// Whether a yield point in state `yielded` finishes when it is polled.
pub open spec fn yield_finishes(yielded: bool) -> bool {
    yielded
}

/// The readiness reported by `n` consecutive polls of a yield point that starts
/// in state `yielded`; every poll leaves the yield point in the yielded state.
pub open spec fn yield_polls(yielded: bool, n: nat) -> Seq<bool>
    decreases n,
{
    if n == 0 {
        Seq::empty()
    } else {
        seq![yield_finishes(yielded)] + yield_polls(true, (n - 1) as nat)
    }
}

/// A fresh yield point, which has not yet suspended.
pub fn yield_now() -> (r: YieldNow)
    ensures
        !r.has_yielded(),
        r.polls() == 0,
        r.finished() is None,
{
    YieldNow { yielded: false, polls: Ghost(0), finished_on: Ghost(None) }
}

impl YieldNow {
    /// Whether this yield point has already suspended once.
    pub closed spec fn has_yielded(&self) -> bool {
        self.yielded
    }

    /// Whether this yield point has already suspended once.
    pub fn yielded(&self) -> (r: bool)
        ensures
            r == self.has_yielded(),
    {
        self.yielded
    }

    /// Attempts progress: the first poll suspends, every later poll finishes.
    /// Each call counts as a poll in the task's record.
    pub fn poll(&mut self) -> (r: Progress<()>)
        ensures
            (r is Ready) == yield_finishes(old(self).has_yielded()),
            final(self).has_yielded(),
            final(self).polls() == old(self).polls() + 1,
            old(self).finished() is None && r is Ready ==> final(self).finished() == Some(
                (final(self).polls(), ()),
            ),
            old(self).finished() is None && r is Pending ==> final(self).finished() is None,
            old(self).finished() is Some ==> final(self).finished() == old(self).finished(),
    {
        let r = if self.yielded {
            Progress::Ready(())
        } else {
            self.yielded = true;
            Progress::Pending
        };
        proof {
            self.polls = Ghost(self.polls@ + 1);
            if r is Ready && self.finished_on@ is None {
                self.finished_on = Ghost(Some(self.polls@));
            }
        }
        r
    }
}

impl Task for YieldNow {
    type Output = ();

    open spec fn tracks_polls(&self) -> bool {
        true
    }

    closed spec fn polls(&self) -> nat {
        self.polls@
    }

    closed spec fn finished(&self) -> Option<(nat, ())> {
        match self.finished_on@ {
            Some(n) => Some((n, ())),
            None => None,
        }
    }

    open spec fn pending_polls(&self) -> Option<nat> {
        if self.has_yielded() {
            Some(0)
        } else {
            Some(1)
        }
    }

    fn poll_task(&mut self) -> Progress<()> {
        self.poll()
    }
}

/// Polling a fresh yield point `n + 1` times reports "not ready" on the first
/// poll and a final result on every poll after it.
pub proof fn lemma_yield_polls_once(n: nat)
    ensures
        yield_polls(false, n + 1).len() == n + 1,
        !yield_polls(false, n + 1)[0],
        forall|i: int| 1 <= i <= n ==> #[trigger] yield_polls(false, n + 1)[i],
{
    lemma_yielded_polls_ready(n);
    assert(yield_polls(false, n + 1) =~= seq![false] + yield_polls(true, n));
}

/// Once a yield point has suspended, every further poll finishes.
pub proof fn lemma_yielded_polls_ready(n: nat)
    ensures
        yield_polls(true, n).len() == n,
        forall|i: int| 0 <= i < n ==> #[trigger] yield_polls(true, n)[i],
    decreases n,
{
    if n > 0 {
        lemma_yielded_polls_ready((n - 1) as nat);
        let rest = yield_polls(true, (n - 1) as nat);
        assert(yield_polls(true, n) =~= seq![true] + rest);
        assert forall|i: int| 0 <= i < n implies #[trigger] yield_polls(true, n)[i] by {
            if i > 0 {
                assert(yield_polls(true, n)[i] == rest[i - 1]);
            }
        }
    }
}

} // verus!
