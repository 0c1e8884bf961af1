//! Verified core of the Nio async runtime: per-worker task bookkeeping,
//! worker selection, I/O readiness, timers and runtime configuration.

pub mod task_counter;
pub mod task_queue;
pub mod local_waker;
pub mod io_waker;
pub mod builder;
pub mod metrics;
pub mod worker;
pub mod timer;
pub mod task;
pub mod signal;
pub mod event_loop;
pub mod console;
