use rt_from_scratch::mt::{next_slot, slot, spawn as mt_spawn, Pool, Shared, FIRST_SLOT, THREADS};
use rt_from_scratch::progress::{block_on, next_step, Next, Progress, Task};
use rt_from_scratch::st::{spawn as st_spawn, Executor};
use rt_from_scratch::timer::{sleep, Timer};
use rt_from_scratch::yield_now::{yield_now, YieldNow};
use std::sync::mpsc::channel;
use std::sync::Arc;

/// Passes `yields` yield points, then finishes with `value`.
struct AfterYields {
    points: Vec<YieldNow>,
    value: u64,
    polls: u32,
}

impl AfterYields {
    fn new(yields: usize, value: u64) -> Self {
        AfterYields { points: (0..yields).map(|_| yield_now()).collect(), value, polls: 0 }
    }
}

impl Task for AfterYields {
    type Output = u64;

    fn poll_task(&mut self) -> Progress<u64> {
        self.polls += 1;
        while let Some(point) = self.points.first_mut() {
            match point.poll() {
                Progress::Pending => return Progress::Pending,
                Progress::Ready(()) => {
                    self.points.remove(0);
                }
            }
        }
        Progress::Ready(self.value)
    }
}

#[test]
fn yield_point_suspends_once() {
    let mut y = yield_now();
    assert!(!y.yielded());
    assert!(!y.poll().is_ready());
    assert!(y.yielded());
    assert!(y.poll().is_ready());
    assert!(y.poll().is_ready());
}

#[test]
fn yield_point_many_polls_stay_ready() {
    let mut y = yield_now();
    assert!(matches!(y.poll(), Progress::Pending));
    for _ in 0..10 {
        assert!(matches!(y.poll(), Progress::Ready(())));
    }
}

#[test]
fn yield_point_driven_by_block_on() {
    let mut y = yield_now();
    let (out, polls) = block_on(&mut y, 10);
    assert_eq!(out, Some(()));
    assert_eq!(polls, 2);
}

#[test]
fn timer_deadline_boundary() {
    let t = sleep(1_000);
    assert_eq!(t.wait_nanos(), 1_000);
    assert!(!t.poll_after(0).is_ready());
    assert!(!t.poll_after(999).is_ready());
    assert!(t.poll_after(1_000).is_ready());
    assert!(t.poll_after(5_000).is_ready());
}

#[test]
fn timer_zero_span_is_ready_at_once() {
    let t = sleep(0);
    assert!(t.poll_after(0).is_ready());
    assert!(t.poll().is_ready());
}

#[test]
fn timer_against_clock() {
    let mut t: Timer = sleep(20_000_000);
    assert!(!t.poll().is_ready());
    let start = std::time::Instant::now();
    while start.elapsed() < std::time::Duration::from_millis(40) {}
    assert!(t.poll().is_ready());
    assert!(t.poll_task().is_ready());
}

#[test]
fn long_timer_exhausts_poll_budget() {
    let mut t = sleep(u128::MAX);
    let (out, polls) = block_on(&mut t, 5);
    assert_eq!(out, None);
    assert_eq!(polls, 5);
}

#[test]
fn blocking_driver_three_yields_then_value() {
    let mut task = AfterYields::new(3, 42);
    let (out, polls) = block_on(&mut task, 1_000);
    assert_eq!(out, Some(42));
    assert_eq!(polls, 4);
    assert_eq!(task.polls, 4);
}

#[test]
fn advance_removes_finished_task_by_swap() {
    let mut exec = Executor::new(10u64);
    st_spawn(&mut exec, 20);
    st_spawn(&mut exec, 30);
    assert_eq!(exec.active_len(), 1);
    assert_eq!(exec.pending_len(), 2);
    exec.advance(false);
    assert_eq!(exec.active_len(), 3);
    assert_eq!(exec.pending_len(), 0);
    assert_eq!(exec.cursor_slot(), 1);
    assert_eq!(*exec.current(), 20);
    exec.advance(false);
    assert_eq!(exec.cursor_slot(), 2);
    assert_eq!(*exec.current(), 30);
    exec.advance(false);
    assert_eq!(exec.cursor_slot(), 0);
    assert_eq!(*exec.current(), 10);
    exec.advance(true);
    assert_eq!(exec.active_len(), 2);
    assert_eq!(exec.cursor_slot(), 0);
    assert_eq!(*exec.current(), 30);
}

#[test]
fn advance_on_empty_set_only_merges() {
    let mut exec = Executor::new(1u64);
    exec.advance(true);
    assert_eq!(exec.active_len(), 0);
    assert_eq!(exec.cursor_slot(), 0);
    exec.advance(false);
    assert_eq!(exec.active_len(), 0);
    st_spawn(&mut exec, 7);
    exec.advance(false);
    assert_eq!(exec.active_len(), 1);
    assert_eq!(*exec.current(), 7);
}

#[test]
fn spawned_tasks_complete_exactly_once() {
    const K: usize = 5;
    let mut exec: Executor<(usize, AfterYields)> = Executor::new((0, AfterYields::new(2, 0)));
    let mut finished = vec![0u32; K + 1];
    let mut spawned = false;
    while exec.active_len() > 0 {
        let (id, task) = exec.current();
        let id = *id;
        assert_eq!(finished[id], 0, "task {id} polled after it finished");
        let done = task.poll_task().is_ready();
        if id == 0 && !spawned {
            for k in 1..=K {
                st_spawn(&mut exec, (k, AfterYields::new(k, k as u64)));
            }
            spawned = true;
        }
        if done {
            finished[id] += 1;
        }
        exec.advance(done);
    }
    assert!(finished.iter().all(|&n| n == 1));
}

#[test]
fn pool_distributes_hundred_tasks_once_each() {
    let shared = Arc::new(Shared::new(THREADS));
    let (sends, recvs): (Vec<_>, Vec<_>) = (0..THREADS).map(|_| channel::<u64>()).unzip();
    let pool = Pool::new(sends, shared).unwrap();
    assert_eq!(pool.workers(), THREADS);
    let first = mt_spawn(&pool, 0);
    assert_eq!(first, FIRST_SLOT);
    for id in 1..100u64 {
        assert!(mt_spawn(&pool, id) < THREADS);
    }
    drop(pool);
    let mut seen = vec![0u32; 100];
    for r in &recvs {
        let got: Vec<u64> = r.try_iter().collect();
        assert_eq!(got.len(), 25);
        for id in got {
            seen[id as usize] += 1;
        }
    }
    assert!(seen.iter().all(|&n| n == 1));
}

#[test]
fn pool_requeues_only_unfinished_tasks() {
    let shared = Arc::new(Shared::new(2));
    let (sends, recvs): (Vec<_>, Vec<_>) = (0..2).map(|_| channel::<u64>()).unzip();
    let pool = Pool::new(sends, shared).unwrap();
    assert_eq!(pool.after_poll(5, true), None);
    assert_eq!(pool.after_poll(6, false), Some(1));
    assert_eq!(pool.after_poll(7, false), Some(0));
    assert_eq!(recvs[1].try_recv().unwrap(), 6);
    assert_eq!(recvs[0].try_recv().unwrap(), 7);
    assert!(recvs[0].try_recv().is_err());
}

#[test]
fn pool_rejects_mismatched_senders() {
    let shared = Arc::new(Shared::new(3));
    let (sends, _recvs): (Vec<_>, Vec<_>) = (0..2).map(|_| channel::<u64>()).unzip();
    assert!(Pool::new(sends, shared).is_none());
    let shared = Arc::new(Shared::new(1));
    assert!(Pool::<u64>::new(Vec::new(), shared).is_none());
}

#[test]
fn runs_in_sequence_start_from_fresh_state() {
    for _ in 0..2 {
        let shared = Shared::new(THREADS);
        assert!(!shared.is_done());
        let picks: Vec<usize> = (0..5).map(|_| shared.pick()).collect();
        assert_eq!(picks, vec![1, 2, 3, 0, 1]);
        shared.finish();
        assert!(shared.is_done());
    }
    for _ in 0..2 {
        let mut exec = Executor::new(1u64);
        assert_eq!(exec.active_len(), 1);
        assert_eq!(exec.pending_len(), 0);
        assert_eq!(exec.cursor_slot(), 0);
        exec.advance(true);
    }
}

#[test]
fn progress_reports_readiness() {
    assert!(Progress::Ready(3u8).is_ready());
    assert!(!Progress::<u8>::Pending.is_ready());
}

#[test]
fn zero_span_timer_ready_on_first_poll() {
    let mut t = sleep(0);
    assert!(t.poll_task().is_ready());
    let (out, polls) = block_on(&mut sleep(0), 3);
    assert_eq!(out, Some(()));
    assert_eq!(polls, 1);
}

#[test]
fn block_on_stops_at_budget_before_finish() {
    let mut task = AfterYields::new(3, 42);
    assert_eq!(block_on(&mut task, 3), (None, 3));
    assert_eq!(block_on(&mut task, 0), (None, 0));
    assert_eq!(block_on(&mut task, 5), (Some(42), 1));
}

#[test]
fn driver_step_decisions() {
    assert!(matches!(next_step(Progress::Ready(7u8), 3, 3), Next::Done(7)));
    assert!(matches!(next_step(Progress::<u8>::Pending, 2, 3), Next::PollAgain));
    assert!(matches!(next_step(Progress::<u8>::Pending, 3, 3), Next::GiveUp));
}

#[test]
fn rotation_slots_wrap_to_worker_count() {
    assert_eq!(slot(9, 4), 1);
    assert_eq!(slot(3, 4), 3);
    assert_eq!(next_slot(0, 4), 1);
    assert_eq!(next_slot(3, 4), 0);
    assert_eq!(next_slot(usize::MAX, 4), 0);
    assert_eq!(next_slot(1, 1), 0);
}
