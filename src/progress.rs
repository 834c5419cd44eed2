use vstd::prelude::*;

verus! {

/// The outcome of one attempt to advance a suspendable computation.
pub enum Progress<T> {
    /// The computation finished with this value.
    Ready(T),
    /// The computation has not finished yet; it must be polled again.
    Pending,
}

impl<T> Progress<T> {
    /// Whether this outcome carries a final value.
    pub fn is_ready(&self) -> (r: bool)
        ensures
            r == (self is Ready),
    {
        match self {
            Progress::Ready(_) => true,
            Progress::Pending => false,
        }
    }
}

/// A suspendable computation: each poll either finishes with a value or reports
/// that it is not ready yet. A finished computation is not polled again.
///
/// A type may keep a record of its polls: how many were made, and on which
/// poll it finished and with what value. Every task of this library keeps one;
/// for a type that keeps the default `tracks_polls() == false` nothing is
/// promised about the record.
pub trait Task {
    type Output;

    /// Whether `polls` and `finished` describe the task.
    open spec fn tracks_polls(&self) -> bool {
        false
    }

    /// The number of polls made so far.
    open spec fn polls(&self) -> nat {
        0
    }

    /// The number of the poll on which the task finished, and its value;
    /// `None` while it has not finished.
    open spec fn finished(&self) -> Option<(nat, Self::Output)> {
        None
    }

    /// How many more polls report "not ready" before one finishes, where that
    /// is known: `Some(k)` means the next `k` polls are pending and the one
    /// after them finishes; `None`, the default, says nothing.
    open spec fn pending_polls(&self) -> Option<nat> {
        None
    }

    /// Attempts progress once.
    fn poll_task(&mut self) -> (r: Progress<Self::Output>)
        ensures
            old(self).pending_polls() matches Some(k) ==> ((r is Ready) <==> k == 0),
            old(self).pending_polls() matches Some(k) ==> (k > 0 ==> final(self).pending_polls()
                == Some((k - 1) as nat)),
            old(self).tracks_polls() ==> final(self).tracks_polls() && final(self).polls() == old(self).polls() + 1,
            old(self).tracks_polls() && old(self).finished() is None ==> (r matches Progress::Ready(v)
                ==> final(self).finished() == Some((final(self).polls(), v))),
            old(self).tracks_polls() && old(self).finished() is None ==> (r is Pending ==> final(self).finished() is None),
            old(self).tracks_polls() && old(self).finished() is Some ==> final(self).finished()
                == old(self).finished(),
    ;
}

/// What the blocking driver does after a poll that came `polls` polls into a
/// budget of `max_polls`: hand back the value of a finished task, or, for a
/// pending one, poll again while budget is left.
pub enum Next<V> {
    /// The task finished with this value.
    Done(V),
    /// The task is pending and budget is left.
    PollAgain,
    /// The task is pending and the budget is spent.
    GiveUp,
}

/// Decides the driver's next move from the outcome of a poll.
pub fn next_step<V>(p: Progress<V>, polls: u64, max_polls: u64) -> (r: Next<V>)
    ensures
        p matches Progress::Ready(v) ==> r == Next::Done(v),
        p is Pending && polls < max_polls ==> r is PollAgain,
        p is Pending && polls >= max_polls ==> r is GiveUp,
{
    match p {
        Progress::Ready(v) => Next::Done(v),
        Progress::Pending => {
            if polls < max_polls {
                Next::PollAgain
            } else {
                Next::GiveUp
            }
        },
    }
}

/// Polls `task` until it finishes, at most `max_polls` times; returns its value,
/// if it finished, and the number of polls made. It stops at the first poll
/// that finishes: a task that tracks its polls and had not finished is left finished on
/// exactly the last poll made, with the value returned. A task known to finish
/// on poll `k + 1` is polled exactly `k + 1` times when the budget allows it.
pub fn block_on<T: Task>(task: &mut T, max_polls: u64) -> (r: (Option<T::Output>, u64))
    ensures
        r.1 <= max_polls,
        r.0 is None ==> r.1 == max_polls,
        r.0 is Some ==> r.1 >= 1,
        old(task).pending_polls() matches Some(k) ==> (k < max_polls ==> r.0 is Some && r.1
            == k + 1),
        old(task).pending_polls() matches Some(k) ==> (k >= max_polls ==> r.0 is None && r.1
            == max_polls),
        old(task).tracks_polls() ==> final(task).tracks_polls() && final(task).polls() == old(task).polls() + r.1,
        old(task).tracks_polls() && old(task).finished() is None ==> (r.0 matches Some(v) ==> final(task).finished() == Some((final(task).polls(), v))),
        old(task).tracks_polls() && old(task).finished() is None ==> (r.0 is None ==> final(task).finished() is None),
{
    if max_polls == 0 {
        return (None, 0);
    }
    let mut polls: u64 = 0;
    loop
        invariant
            polls < max_polls,
            old(task).pending_polls() matches Some(k) ==> (polls <= k && task.pending_polls()
                == Some((k - polls) as nat)),
            old(task).tracks_polls() ==> task.tracks_polls() && task.polls() == old(task).polls()
                + polls,
            old(task).tracks_polls() && old(task).finished() is None ==> task.finished() is None,
        decreases max_polls - polls,
    {
        polls = polls + 1;
        let p = task.poll_task();
        match next_step(p, polls, max_polls) {
            Next::Done(v) => {
                return (Some(v), polls);
            },
            Next::PollAgain => {},
            Next::GiveUp => {
                return (None, polls);
            },
        }
    }
}

} // verus!
