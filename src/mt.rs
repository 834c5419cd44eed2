use vstd::prelude::*;

use std::sync::atomic::AtomicBool;
use std::sync::atomic::AtomicUsize;
use std::sync::atomic::Ordering;
use std::sync::mpsc::Sender;
use std::sync::Arc;

verus! {

/// The sending end of a worker's channel, carried through unread.
#[verifier::external_type_specification]
#[verifier::external_body]
#[verifier::reject_recursive_types(T)]
pub struct ExSender<T>(Sender<T>);

/// Relies on `Sender::send`: hands `task` to the channel's receiver; `false` when
/// the receiver is gone, which depends on the other thread, so nothing more is stated.
#[verifier::external_body]
fn send_task<T>(sender: &Sender<T>, task: T) -> (r: bool) {
    sender.send(task).is_ok()
}

/// Relies on `AtomicUsize::fetch_update`: replaces the counter by `next_slot` of
/// its value in one atomic step and returns the value it replaced. The closure
/// always gives `Some`, so both arms carry that value. Other threads move the
/// counter too, so nothing is stated of the value.
#[verifier::external_body]
fn rotate(counter: &AtomicUsize, workers: usize) -> (r: usize)
    requires
        workers > 0,
{
    match counter.fetch_update(Ordering::SeqCst, Ordering::SeqCst, |c| Some(next_slot(c, workers))) {
        Ok(c) => c,
        Err(c) => c,
    }
}

/// The worker that a rotation count selects among `workers` workers.
pub fn slot(count: usize, workers: usize) -> (r: usize)
    requires
        workers > 0,
    ensures
        r == count % workers,
{
    count % workers
}

/// The rotation count that follows `count`, wrapped to `workers` workers.
pub fn next_slot(count: usize, workers: usize) -> (r: usize)
    requires
        workers > 0,
    ensures
        r == (count % workers + 1) % (workers as int),
        r < workers,
{
    (count % workers + 1) % workers
}

/// The default number of worker threads.
pub const THREADS: usize = 4;

/// The slot that the rotation counter holds at the start of a run: worker zero
/// receives the root task, so placement begins with the next worker.
pub const FIRST_SLOT: usize = 1;

/// The shared state of one run of the multi-threaded executor: the rotation
/// counter that places tasks on workers, and the flag that tells the workers
/// that the root task is done.
///
/// Each run makes its own, so nothing carries over from one run to the next.
pub struct Shared {
    next: AtomicUsize,
    done: AtomicBool,
    workers: usize,
}

impl Shared {
    /// The number of workers that tasks are placed on.
    pub closed spec fn worker_count(&self) -> nat {
        self.workers as nat
    }

    /// Fresh state for a run over `workers` workers: the counter at
    /// `FIRST_SLOT`, the completion flag clear.
    pub fn new(workers: usize) -> (r: Self)
        requires
            workers > 0,
        ensures
            r.worker_count() == workers,
    {
        Shared { next: AtomicUsize::new(FIRST_SLOT), done: AtomicBool::new(false), workers }
    }

    /// The number of workers that tasks are placed on.
    pub fn workers(&self) -> (r: usize)
        ensures
            r == self.worker_count(),
    {
        self.workers
    }

    /// Advances the rotation counter to the next slot, wrapped to the worker
    /// count, and returns the worker that the count it held selects.
    pub fn pick(&self) -> (r: usize)
        requires
            self.worker_count() > 0,
        ensures
            r < self.worker_count(),
    {
        let count = rotate(&self.next, self.workers);
        slot(count, self.workers)
    }

    /// Marks the root task as done, telling every worker to stop.
    pub fn finish(&self) {
        self.done.store(true, Ordering::SeqCst);
    }

    /// Whether the root task has been marked done.
    pub fn is_done(&self) -> bool {
        self.done.load(Ordering::SeqCst)
    }
}

/// What a worker reaches while it runs tasks: the sending end of every worker's
/// channel, and the shared state of the run.
#[verifier::reject_recursive_types(F)]
pub struct Pool<F> {
    senders: Vec<Sender<F>>,
    shared: Arc<Shared>,
}

impl<F> Pool<F> {
    /// The number of workers whose channels this pool reaches.
    pub closed spec fn len(&self) -> nat {
        self.senders@.len()
    }

    /// The number of workers that the shared state places tasks on.
    pub closed spec fn placed_on(&self) -> nat {
        self.shared.worker_count()
    }

    /// One sending end per worker of the shared state.
    pub open spec fn wf(&self) -> bool {
        self.len() == self.placed_on() && self.len() > 0
    }

    /// A pool over `senders`, one per worker of `shared`.
    pub fn new(senders: Vec<Sender<F>>, shared: Arc<Shared>) -> (r: Option<Self>)
        ensures
            r is Some <==> (senders@.len() == shared.worker_count() && senders@.len() > 0),
            r matches Some(p) ==> p.wf() && p.len() == senders@.len(),
    {
        if senders.len() == shared.workers() && senders.len() > 0 {
            Some(Pool { senders, shared })
        } else {
            None
        }
    }

    /// The number of workers whose channels this pool reaches.
    pub fn workers(&self) -> (r: usize)
        ensures
            r == self.len(),
    {
        self.senders.len()
    }

    /// The shared state of the run.
    pub fn shared(&self) -> (r: &Arc<Shared>)
        ensures
            r.worker_count() == self.placed_on(),
    {
        &self.shared
    }

    /// Sends `task` to the worker that the rotation counter selects, and returns
    /// that worker's index; the task is lost only if that worker has stopped.
    pub fn submit(&self, task: F) -> (r: usize)
        requires
            self.wf(),
        ensures
            r < self.len(),
    {
        let idx = self.shared.pick();
        let _ = send_task(&self.senders[idx], task);
        idx
    }

    /// Disposes of a task after a worker polled it: a finished task is dropped,
    /// an unfinished one goes to the next worker in rotation, whose index is
    /// returned.
    pub fn after_poll(&self, task: F, finished: bool) -> (r: Option<usize>)
        requires
            self.wf(),
        ensures
            r is None <==> finished,
            r matches Some(i) ==> i < self.len(),
    {
        if finished {
            None
        } else {
            Some(self.submit(task))
        }
    }
}

/// Places a new task on a worker of the running pool, chosen by rotation.
pub fn spawn<F>(pool: &Pool<F>, task: F) -> (r: usize)
    requires
        pool.wf(),
    ensures
        r < pool.len(),
{
    pool.submit(task)
}

} // verus!
