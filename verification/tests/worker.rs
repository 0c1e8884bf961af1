use nio::event_loop::plan_poll;
use nio::signal::{on_wait, on_wake, on_wakeup, SignalState, YieldNow, YieldStep};
use nio::task::{is_same_worker, placement, Metadata, Placement, TaskKind};
use nio::task_queue::{Counter, TaskQueue};
use nio::timer::Timers;
use nio::worker::{find_index_of_lowest, Workers};

fn queues_with(loads: &[u64]) -> Vec<Counter> {
    loads
        .iter()
        .map(|&n| {
            let mut q = TaskQueue::new();
            for _ in 0..n {
                q.increase_local();
            }
            q.load()
        })
        .collect()
}

#[test]
fn lowest_first_under_min() {
    let qs = queues_with(&[5, 1, 0]);
    assert_eq!(find_index_of_lowest(&qs, 1), 1);
    let qs = queues_with(&[0, 9]);
    assert_eq!(find_index_of_lowest(&qs, 0), 0);
}

#[test]
fn lowest_stops_when_loads_rise() {
    let qs = queues_with(&[5, 3, 4, 0]);
    // 3 < 4: the scan stops at index 1 without seeing the idle last worker
    assert_eq!(find_index_of_lowest(&qs, 0), 1);
    let qs = queues_with(&[5, 4, 4, 2]);
    assert_eq!(find_index_of_lowest(&qs, 0), 3);
    let qs = queues_with(&[7]);
    assert_eq!(find_index_of_lowest(&qs, 0), 0);
}

#[test]
fn choice_not_heavier_than_earlier() {
    let loads = [6u64, 4, 4, 5, 0];
    let qs = queues_with(&loads);
    let r = find_index_of_lowest(&qs, 1);
    assert_eq!(r, 2);
    for j in 0..=r {
        assert!(qs[r].total() <= qs[j].total());
        if j < r {
            assert!(qs[j].total() > 1);
        }
    }
    assert!(qs[r].total() < qs[r + 1].total());
}

#[test]
fn workers_pick_and_record() {
    let mut w = Workers::new(3, 1);
    assert_eq!(w.len(), 3);
    let id = w.least_loaded_worker();
    assert_eq!(id.get(), 0);
    // the first sender wakes the worker, the second does not
    assert!(w.record_shared_task(id));
    assert!(!w.record_shared_task(id));
    assert_eq!(w.task_queue(id).load().shared(), 2);
    // waking failed: the next sender tries again
    w.wake_failed(id);
    assert!(w.record_shared_task(id));
    // worker 0 now holds 3 tasks, more than min: worker 1 is idle
    assert_eq!(w.least_loaded_worker().get(), 1);
    assert!(w.checked_id(3).is_none());
    let counts = w.task_counts();
    assert_eq!(counts.len(), 3);
    assert_eq!(counts[0].total(), 3);
    assert_eq!(counts[1].total(), 0);
    assert_eq!(w.checked_id(2).unwrap().get(), 2);
    assert_eq!(w.id(1).get(), 1);
}

#[test]
fn placement_of_tasks() {
    let w = Workers::new(2, 1);
    let a = w.id(0);
    let b = w.id(1);
    assert_eq!(placement(TaskKind::Sendable, Some(a)), Placement::LeastLoaded);
    assert_eq!(placement(TaskKind::Pinned(a), Some(a)), Placement::LocalQueue);
    assert_eq!(placement(TaskKind::Pinned(a), Some(b)), Placement::SharedQueueOf(a));
    assert_eq!(placement(TaskKind::Pinned(b), None), Placement::SharedQueueOf(b));
    let m = Metadata { kind: TaskKind::Pinned(b) };
    assert_eq!(m.placement(Some(b)), Placement::LocalQueue);
}

#[test]
fn same_worker_check() {
    let w = Workers::new(2, 1);
    let a = w.id(0);
    let b = w.id(1);
    assert!(is_same_worker(Some(a), a));
    assert!(!is_same_worker(Some(b), a));
    assert!(!is_same_worker(None, a));
}

#[test]
fn signal_handshake() {
    // wake before wait: no sleep
    let (s, notify) = on_wake(SignalState::Running);
    assert_eq!(s, SignalState::Notified);
    assert!(!notify);
    let (s, sleep) = on_wait(s);
    assert_eq!(s, SignalState::Running);
    assert!(!sleep);
    // wait, then wake while asleep
    let (s, sleep) = on_wait(s);
    assert!(sleep);
    assert_eq!(s, SignalState::Sleep);
    assert_eq!(on_wakeup(s), (SignalState::Sleep, false)); // spurious
    let (s, notify) = on_wake(s);
    assert!(notify);
    assert_eq!(on_wakeup(s), (SignalState::Running, true));
}

#[test]
fn plan_with_work_does_not_block() {
    let timers = Timers::new();
    let mut q = TaskQueue::new();
    q.increase_local();
    let p = plan_poll(&mut q, &timers, false);
    assert!(!p.move_shared);
    assert_eq!(p.timeout, Some(0));
    assert_eq!(p.counter.local(), 1);
}

#[test]
fn plan_idle_waits_for_next_timer() {
    let mut timers = Timers::new();
    let now = timers.clock().current();
    let _s = timers.sleep_at(now + 500);
    let mut q = TaskQueue::new();
    q.increase_shared_and_mark_as_notified();
    let snapshot = q.load();
    q.move_shared_to_local(snapshot);
    q.decrease_local();
    let p = plan_poll(&mut q, &timers, true);
    assert!(p.counter.is_notified());
    assert!(!q.load().is_notified());
    assert!(!p.move_shared);
    assert_eq!(p.timeout, Some(500));
    // no timer at all: block without limit
    let empty = Timers::new();
    let p = plan_poll(&mut q, &empty, true);
    assert_eq!(p.timeout, None);
}

#[test]
fn plan_moves_shared_tasks() {
    let timers = Timers::new();
    let mut q = TaskQueue::new();
    q.increase_shared_and_mark_as_notified();
    let p = plan_poll(&mut q, &timers, true);
    assert!(p.move_shared);
    assert_eq!(p.timeout, Some(0));
    // flag stays set while shared tasks wait
    assert!(q.load().is_notified());
}

#[test]
fn rounds_poll_at_most_tick_tasks() {
    let mut r = nio::event_loop::Round::new(2);
    assert_eq!(r.next_step(false), nio::event_loop::RoundStep::RunTask);
    assert_eq!(r.next_step(false), nio::event_loop::RoundStep::RunTask);
    // the limit is reached: the round ends though tasks are waiting
    assert_eq!(r.next_step(false), nio::event_loop::RoundStep::EndRound);
    assert_eq!(r.next_step(false), nio::event_loop::RoundStep::RunTask);
    // an empty local queue ends the round early
    assert_eq!(r.next_step(true), nio::event_loop::RoundStep::EndRound);
    let mut z = nio::event_loop::Round::new(0);
    assert_eq!(z.next_step(false), nio::event_loop::RoundStep::EndRound);
}

#[test]
fn yield_now_waits_once() {
    let mut y = YieldNow::new();
    assert_eq!(y.poll_step(), YieldStep::WakeAndWait);
    assert_eq!(y.poll_step(), YieldStep::Ready);
    assert_eq!(y.poll_step(), YieldStep::Ready);
}
