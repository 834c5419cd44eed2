use vstd::multiset::Multiset;
use vstd::prelude::*;
use vstd::seq_lib::lemma_multiset_commutative;

verus! {

/// The task set of a single-threaded executor: the active tasks, a buffer of
/// tasks spawned since the last merge, and a cursor over the active tasks.
///
/// Tasks are polled by the caller through `current`; the executor decides which
/// task comes next and what happens to it after its poll.
pub struct Executor<F> {
    tasks: Vec<F>,
    spawning: Vec<F>,
    cursor: usize,
}

/// The active tasks after the task at `cursor` was polled: a finished task is
/// removed, its slot taken by the last task; an unfinished one stays in place.
pub open spec fn after_poll<F>(tasks: Seq<F>, cursor: int, finished: bool) -> Seq<F> {
    if finished {
        tasks.update(cursor, tasks.last()).drop_last()
    } else {
        tasks
    }
}

/// The cursor after a poll: it moves past an unfinished task, stays on the slot
/// of a finished one, and wraps over the `len` tasks that are then active.
pub open spec fn next_cursor(cursor: int, finished: bool, len: int) -> int {
    if len <= 0 {
        0
    } else if finished {
        cursor % len
    } else {
        (cursor + 1) % len
    }
}

impl<F> Executor<F> {
    /// The tasks eligible for polling, in slot order.
    pub closed spec fn active(&self) -> Seq<F> {
        self.tasks@
    }

    /// The tasks spawned since the last merge, in order of spawning.
    pub closed spec fn pending(&self) -> Seq<F> {
        self.spawning@
    }

    /// The slot of the active task that is polled next.
    pub closed spec fn cursor(&self) -> int {
        self.cursor as int
    }

    /// The cursor names an active task, or is zero when none is active.
    pub open spec fn wf(&self) -> bool {
        if self.active().len() == 0 {
            self.cursor() == 0
        } else {
            0 <= self.cursor() < self.active().len()
        }
    }

    /// An executor whose only active task is `root`.
    pub fn new(root: F) -> (r: Self)
        ensures
            r.wf(),
            r.active() == seq![root],
            r.pending() == Seq::<F>::empty(),
            r.cursor() == 0,
    {
        let mut tasks = Vec::new();
        tasks.push(root);
        Executor { tasks, spawning: Vec::new(), cursor: 0 }
    }

    /// The number of active tasks.
    pub fn active_len(&self) -> (r: usize)
        ensures
            r == self.active().len(),
    {
        self.tasks.len()
    }

    /// The number of spawned tasks not yet merged into the active set.
    pub fn pending_len(&self) -> (r: usize)
        ensures
            r == self.pending().len(),
    {
        self.spawning.len()
    }

    /// The slot of the active task that is polled next.
    pub fn cursor_slot(&self) -> (r: usize)
        ensures
            r == self.cursor(),
    {
        self.cursor
    }

    /// The task under the cursor, to be polled by the caller.
    pub fn current(&mut self) -> (r: &mut F)
        requires
            old(self).wf(),
            old(self).active().len() > 0,
        ensures
            *r == old(self).active()[old(self).cursor()],
            final(self).active() == old(self).active().update(old(self).cursor(), *final(r)),
            final(self).pending() == old(self).pending(),
            final(self).cursor() == old(self).cursor(),
    {
        &mut self.tasks[self.cursor]
    }

    /// Records the outcome of polling the task under the cursor, merges the
    /// spawned tasks into the active set, and wraps the cursor.
    ///
    /// With no active task there was nothing to poll: only the merge happens.
    pub fn advance(&mut self, finished: bool)
        requires
            old(self).wf(),
        ensures
            final(self).wf(),
            final(self).pending() == Seq::<F>::empty(),
            old(self).active().len() > 0 ==> final(self).active() == after_poll(
                old(self).active(),
                old(self).cursor(),
                finished,
            ) + old(self).pending(),
            old(self).active().len() > 0 ==> final(self).cursor() == next_cursor(
                old(self).cursor(),
                finished,
                final(self).active().len() as int,
            ),
            old(self).active().len() == 0 ==> final(self).active() == old(self).pending(),
            old(self).active().len() == 0 ==> final(self).cursor() == 0,
            final(self).active() == round_tasks(
                old(self).active(),
                old(self).cursor(),
                finished,
                old(self).pending(),
            ),
            final(self).cursor() == round_cursor(
                old(self).active(),
                old(self).cursor(),
                finished,
                old(self).pending(),
            ),
    {
        if self.tasks.len() == 0 {
            self.tasks.append(&mut self.spawning);
            self.cursor = 0;
            return;
        }
        let mut c = self.cursor;
        if finished {
            let _ = self.tasks.swap_remove(c);
        } else {
            c = c + 1;
        }
        self.tasks.append(&mut self.spawning);
        let len = self.tasks.len();
        if len == 0 {
            self.cursor = 0;
        } else {
            self.cursor = c % len;
        }
    }
}

/// Queues `task` to join the active set at the next merge; it is not polled
/// before then.
pub fn spawn<F>(exec: &mut Executor<F>, task: F)
    requires
        old(exec).wf(),
    ensures
        final(exec).wf(),
        final(exec).active() == old(exec).active(),
        final(exec).pending() == old(exec).pending().push(task),
        final(exec).cursor() == old(exec).cursor(),
{
    exec.spawning.push(task);
}

/// Across one poll and merge, a task that finished leaves the active set once,
/// every other active task stays, and every spawned task joins exactly once.
pub proof fn lemma_advance_membership<F>(
    tasks: Seq<F>,
    pending: Seq<F>,
    cursor: int,
    finished: bool,
)
    requires
        0 <= cursor < tasks.len(),
    ensures
        finished ==> (after_poll(tasks, cursor, finished) + pending).to_multiset()
            == tasks.to_multiset().remove(tasks[cursor]).add(pending.to_multiset()),
        !finished ==> (after_poll(tasks, cursor, finished) + pending).to_multiset()
            == tasks.to_multiset().add(pending.to_multiset()),
        finished && tasks.to_multiset().count(tasks[cursor]) == 1 && !pending.contains(
            tasks[cursor],
        ) ==> !(after_poll(tasks, cursor, finished) + pending).contains(tasks[cursor]),
{
    broadcast use vstd::seq_lib::group_to_multiset_ensures;

    let kept = after_poll(tasks, cursor, finished);
    lemma_multiset_commutative(kept, pending);
    if finished {
        let last = tasks.len() - 1;
        let a = tasks.subrange(0, cursor);
        let b = tasks.subrange(cursor + 1, last);
        let l = seq![tasks[last]];
        if cursor == last {
            assert(kept =~= tasks.remove(cursor));
        } else {
            assert(kept =~= (a + l) + b);
            assert(tasks.remove(cursor) =~= (a + b) + l);
            lemma_multiset_commutative(a + l, b);
            lemma_multiset_commutative(a, l);
            lemma_multiset_commutative(a + b, l);
            lemma_multiset_commutative(a, b);
            assert(kept.to_multiset() =~= tasks.remove(cursor).to_multiset());
        }
        assert(pending.contains(tasks[cursor]) <==> pending.to_multiset().count(tasks[cursor]) > 0);
        assert((kept + pending).contains(tasks[cursor]) <==> (kept + pending).to_multiset().count(
            tasks[cursor],
        ) > 0);
    }
}

/// The active tasks after one round: the task under the cursor was polled (if
/// any was active), then the tasks in `spawned` were merged.
pub open spec fn round_tasks<F>(tasks: Seq<F>, cursor: int, finished: bool, spawned: Seq<F>) -> Seq<F> {
    if tasks.len() == 0 {
        spawned
    } else {
        after_poll(tasks, cursor, finished) + spawned
    }
}

/// The cursor after one round.
pub open spec fn round_cursor<F>(tasks: Seq<F>, cursor: int, finished: bool, spawned: Seq<F>) -> int {
    if tasks.len() == 0 {
        0
    } else {
        next_cursor(cursor, finished, round_tasks(tasks, cursor, finished, spawned).len() as int)
    }
}

/// The active tasks after one round per entry of `outcomes`, the tasks of
/// `spawned[i]` being merged in round `i`.
pub open spec fn run_tasks<F>(
    tasks: Seq<F>,
    cursor: int,
    outcomes: Seq<bool>,
    spawned: Seq<Seq<F>>,
) -> Seq<F>
    decreases outcomes.len(),
{
    if outcomes.len() == 0 {
        tasks
    } else {
        run_tasks(
            round_tasks(tasks, cursor, outcomes[0], spawned[0]),
            round_cursor(tasks, cursor, outcomes[0], spawned[0]),
            outcomes.drop_first(),
            spawned.drop_first(),
        )
    }
}

/// The tasks that reported a final result over the same rounds, each counted
/// once per time it finished.
pub open spec fn run_finished<F>(
    tasks: Seq<F>,
    cursor: int,
    outcomes: Seq<bool>,
    spawned: Seq<Seq<F>>,
) -> Multiset<F>
    decreases outcomes.len(),
{
    if outcomes.len() == 0 {
        Multiset::empty()
    } else {
        let here = if tasks.len() > 0 && outcomes[0] {
            Multiset::singleton(tasks[cursor])
        } else {
            Multiset::empty()
        };
        here.add(
            run_finished(
                round_tasks(tasks, cursor, outcomes[0], spawned[0]),
                round_cursor(tasks, cursor, outcomes[0], spawned[0]),
                outcomes.drop_first(),
                spawned.drop_first(),
            ),
        )
    }
}

/// Every task of every batch in `spawned`, as a multiset.
pub open spec fn all_spawned<F>(spawned: Seq<Seq<F>>) -> Multiset<F>
    decreases spawned.len(),
{
    if spawned.len() == 0 {
        Multiset::empty()
    } else {
        spawned[0].to_multiset().add(all_spawned(spawned.drop_first()))
    }
}

/// Over any run of rounds, each task that was ever admitted (the starting
/// tasks and every spawned one) is, at the end, either still active or among
/// the tasks that finished, and counted exactly once: none is lost, none
/// finishes twice.
pub proof fn lemma_run_accounts_for_every_task<F>(
    tasks: Seq<F>,
    cursor: int,
    outcomes: Seq<bool>,
    spawned: Seq<Seq<F>>,
)
    requires
        tasks.len() == 0 ==> cursor == 0,
        tasks.len() > 0 ==> 0 <= cursor < tasks.len(),
        spawned.len() == outcomes.len(),
    ensures
        run_tasks(tasks, cursor, outcomes, spawned).to_multiset().add(
            run_finished(tasks, cursor, outcomes, spawned),
        ) == tasks.to_multiset().add(all_spawned(spawned)),
    decreases outcomes.len(),
{
    broadcast use vstd::seq_lib::group_to_multiset_ensures;

    if outcomes.len() > 0 {
        let fin = outcomes[0];
        let next = round_tasks(tasks, cursor, fin, spawned[0]);
        let c = round_cursor(tasks, cursor, fin, spawned[0]);
        let rest_o = outcomes.drop_first();
        let rest_s = spawned.drop_first();
        lemma_run_accounts_for_every_task(next, c, rest_o, rest_s);
        let end = run_tasks(next, c, rest_o, rest_s).to_multiset();
        let fin_rest = run_finished(next, c, rest_o, rest_s);
        assert(run_tasks(tasks, cursor, outcomes, spawned) == run_tasks(next, c, rest_o, rest_s));
        assert(all_spawned(spawned) == spawned[0].to_multiset().add(all_spawned(rest_s)));
        if tasks.len() == 0 {
            assert(run_finished(tasks, cursor, outcomes, spawned) =~= fin_rest);
            assert(next == spawned[0]);
            assert(end.add(run_finished(tasks, cursor, outcomes, spawned)) =~= tasks.to_multiset().add(
                all_spawned(spawned),
            ));
        } else {
            lemma_advance_membership(tasks, spawned[0], cursor, fin);
            if fin {
                let x = tasks[cursor];
                assert(run_finished(tasks, cursor, outcomes, spawned) == Multiset::singleton(
                    x,
                ).add(fin_rest));
                assert(tasks.to_multiset().count(x) > 0);
                assert(tasks.to_multiset().remove(x).insert(x) =~= tasks.to_multiset());
                assert(next.to_multiset() == tasks.to_multiset().remove(x).add(
                    spawned[0].to_multiset(),
                ));
                let t = tasks.to_multiset();
                let s0 = spawned[0].to_multiset();
                let ar = all_spawned(rest_s);
                assert(end.add(fin_rest) == t.remove(x).add(s0).add(ar));
                assert(end.add(Multiset::singleton(x).add(fin_rest)) =~= end.add(fin_rest).insert(x));
                assert(t.remove(x).add(s0).add(ar).insert(x) =~= t.remove(x).insert(x).add(
                    s0.add(ar),
                ));
                assert(end.add(run_finished(tasks, cursor, outcomes, spawned)) =~= tasks.to_multiset().add(
                    all_spawned(spawned),
                ));
            } else {
                assert(run_finished(tasks, cursor, outcomes, spawned) =~= fin_rest);
                assert(next.to_multiset() == tasks.to_multiset().add(spawned[0].to_multiset()));
                assert(end.add(run_finished(tasks, cursor, outcomes, spawned)) =~= tasks.to_multiset().add(
                    all_spawned(spawned),
                ));
            }
        }
    }
}

} // verus!
