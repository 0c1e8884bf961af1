//! Hooks through which a runtime reports queue events, and a simple
//! recorder of them.
use std::sync::atomic::{AtomicUsize, Ordering};
use vstd::prelude::*;

verus! {

/// Receives queue events from the workers of a runtime.
pub trait Measurement: Send + Sync {
    /// The worker indices on which events may be reported.
    spec fn accepts_worker(&self, worker_id: usize) -> bool;

    /// Called once, with the number of workers, before the runtime starts.
    fn init(&mut self, worker_threads: usize) {
    }

    /// A worker accepted its notification with an empty shared queue.
    fn queue_drained(&self, worker_id: usize)
        requires
            self.accepts_worker(worker_id),
    {
    }

    /// A worker was notified of new shared tasks.
    fn queue_notified(&self, worker_id: usize)
        requires
            self.accepts_worker(worker_id),
    {
    }
}

/// Ignores every event.
#[derive(Debug)]
pub struct NoMeasurement;

impl Measurement for NoMeasurement {
    open spec fn accepts_worker(&self, worker_id: usize) -> bool {
        true
    }
}

/// Event counts of one worker.
#[derive(Debug)]
struct QueueEvents {
    drained: AtomicUsize,
    notified: AtomicUsize,
}

/// Counts the queue events of each worker.
#[derive(Debug)]
pub struct SimpleMeasurement {
    workers: Vec<QueueEvents>,
}

impl SimpleMeasurement {
    /// The number of workers counted.
    pub closed spec fn worker_count(&self) -> nat {
        self.workers@.len()
    }

    /// A recorder with no worker yet.
    pub fn new() -> (r: SimpleMeasurement)
        ensures
            r.worker_count() == 0,
    {
        SimpleMeasurement { workers: Vec::new() }
    }

    /// The drained and notified counts of worker `worker_id`. The counters are
    /// shared with other threads, so nothing is claimed of the values read.
    pub fn counts(&self, worker_id: usize) -> (usize, usize)
        requires
            worker_id < self.worker_count(),
    {
        let w = &self.workers[worker_id];
        (w.drained.load(Ordering::Relaxed), w.notified.load(Ordering::Relaxed))
    }
}

impl Measurement for SimpleMeasurement {
    open spec fn accepts_worker(&self, worker_id: usize) -> bool {
        worker_id < self.worker_count()
    }

    /// One zeroed pair of counts per worker.
    fn init(&mut self, worker_threads: usize)
        ensures
            final(self).worker_count() == worker_threads,
    {
        let mut workers: Vec<QueueEvents> = Vec::new();
        let mut i: usize = 0;
        while i < worker_threads
            invariant
                i <= worker_threads,
                workers@.len() == i,
            decreases worker_threads - i,
        {
            workers.push(QueueEvents { drained: AtomicUsize::new(0), notified: AtomicUsize::new(0) });
            i = i + 1;
        }
        self.workers = workers;
    }

    fn queue_drained(&self, worker_id: usize) {
        self.workers[worker_id].drained.fetch_add(1, Ordering::Relaxed);
    }

    fn queue_notified(&self, worker_id: usize) {
        self.workers[worker_id].notified.fetch_add(1, Ordering::Relaxed);
    }
}

} // verus!
