use nio::builder::{default_thread_name, default_worker_name, RuntimeBuilder, ThreadNamer, WorkerNaming};
use nio::metrics::{Measurement, SimpleMeasurement};
use std::time::Duration;

#[test]
fn builder_defaults() {
    let b = RuntimeBuilder::new(Some(8));
    let s = b.settings();
    assert_eq!(s.worker_threads, 8);
    assert_eq!(s.worker_stack_size, None);
    assert_eq!(s.event_interval, 61);
    assert_eq!(s.min_tasks_per_worker, None);
    assert_eq!(s.threadpool_load_factor, 2);
    assert_eq!(s.max_blocking_threads, 512);
    assert_eq!(s.thread_stack_size, 0);
    assert_eq!(s.thread_timeout, Some(Duration::from_secs(10)));
    assert_eq!(RuntimeBuilder::new(None).settings().worker_threads, 1);
}

#[test]
fn builder_setters() {
    let b = RuntimeBuilder::new(Some(4))
        .worker_threads(3)
        .worker_stack_size(0)
        .event_interval(7)
        .min_tasks_per_worker(5)
        .thread_stack_size(4096)
        .threadpool_load_factor(3)
        .max_blocking_threads(16)
        .thread_timeout(None);
    let s = b.settings();
    assert_eq!(s.worker_threads, 3);
    assert_eq!(s.worker_stack_size, None);
    assert_eq!(s.event_interval, 7);
    assert_eq!(s.min_tasks_per_worker, Some(5));
    assert_eq!(s.thread_stack_size, 4096);
    assert_eq!(s.threadpool_load_factor, 3);
    assert_eq!(s.max_blocking_threads, 16);
    assert_eq!(s.thread_timeout, None);
    let s = RuntimeBuilder::new(None).worker_stack_size(1 << 20).settings();
    assert_eq!(s.worker_stack_size, Some(1 << 20));
}

#[test]
fn builder_min_tasks_default_is_half_the_workers() {
    assert_eq!(RuntimeBuilder::new(Some(8)).resolved_min_tasks_per_worker(), 4);
    assert_eq!(RuntimeBuilder::new(Some(3)).resolved_min_tasks_per_worker(), 1);
    assert_eq!(RuntimeBuilder::new(Some(1)).resolved_min_tasks_per_worker(), 1);
    assert_eq!(
        RuntimeBuilder::new(Some(8)).min_tasks_per_worker(9).resolved_min_tasks_per_worker(),
        9
    );
}

#[test]
fn builder_names() {
    let mut b = RuntimeBuilder::new(Some(2))
        .worker_name(|id| format!("w{id}"))
        .thread_name(|id| format!("t{id}"));
    let w = b.take_worker_name().unwrap();
    assert_eq!(w.name(3), "w3");
    assert!(b.take_worker_name().is_none());
    let t = b.take_thread_name().unwrap();
    assert_eq!(t.name(7), "t7");
    assert!(b.take_thread_name().is_none());

    let mut d = RuntimeBuilder::new(Some(2));
    assert_eq!(d.take_worker_name().unwrap().name(1), "Worker: 1");
    assert_eq!(d.take_thread_name().unwrap().name(2), "Thread: 2");
}

#[test]
fn builder_measurement() {
    let mut b = RuntimeBuilder::new(Some(2));
    assert!(b.take_measurement().is_some());
    assert!(b.take_measurement().is_none());
    let mut b = b.measurement(SimpleMeasurement::new());
    let mut m = b.take_measurement().unwrap();
    m.init(2);
    m.queue_drained(1);
    m.queue_notified(0);
}

#[test]
fn simple_measurement_counts() {
    let mut m = SimpleMeasurement::new();
    m.init(3);
    m.queue_drained(2);
    m.queue_drained(2);
    m.queue_notified(0);
    assert_eq!(m.counts(2), (2, 0));
    assert_eq!(m.counts(0), (0, 1));
    assert_eq!(m.counts(1), (0, 0));
}

#[test]
fn default_names_in_decimal() {
    assert_eq!(default_worker_name(3), "Worker: 3");
    assert_eq!(default_worker_name(0), "Worker: 0");
    assert_eq!(default_worker_name(255), "Worker: 255");
    assert_eq!(default_thread_name(12), "Thread: 12");
    assert_eq!(default_thread_name(1000), "Thread: 1000");
    assert_eq!(WorkerNaming::Default.name(7), "Worker: 7");
}

#[test]
fn checked_setters() {
    let b = RuntimeBuilder::new(Some(4));
    let b = match b.try_worker_threads(0) {
        Ok(_) => panic!("0 workers accepted"),
        Err(b) => b,
    };
    assert_eq!(b.settings().worker_threads, 4);
    let b = b.try_worker_threads(2).ok().unwrap();
    assert_eq!(b.settings().worker_threads, 2);
    let b = match b.try_event_interval(0) {
        Ok(_) => panic!("interval 0 accepted"),
        Err(b) => b,
    };
    assert_eq!(b.settings().event_interval, 61);
    let b = b.try_event_interval(9).ok().unwrap();
    assert_eq!(b.settings().event_interval, 9);
    assert!(b.try_min_tasks_per_worker(0).is_err());
    let b = RuntimeBuilder::new(Some(4)).try_min_tasks_per_worker(3).ok().unwrap();
    assert_eq!(b.settings().min_tasks_per_worker, Some(3));
}

#[test]
fn setters_keep_the_name_functions() {
    let mut b = RuntimeBuilder::new(Some(2))
        .worker_name(|id| format!("w{id}"))
        .worker_threads(3)
        .event_interval(5)
        .min_tasks_per_worker(2);
    assert_eq!(b.take_worker_name().unwrap().name(4), "w4");
    assert_eq!(b.take_thread_name().unwrap().name(4), "Thread: 4");
}
