use nio::io_waker::{EventReadiness, IoWaker};
use nio::local_waker::LocalWaker;
use std::sync::atomic::{AtomicUsize, Ordering};
use std::sync::Arc;
use std::task::{Context, Wake, Waker};

struct CountingWaker(AtomicUsize);

impl Wake for CountingWaker {
    fn wake(self: Arc<Self>) {
        self.0.fetch_add(1, Ordering::SeqCst);
    }
}

fn counting() -> (Arc<CountingWaker>, Waker) {
    let c = Arc::new(CountingWaker(AtomicUsize::new(0)));
    let w = Waker::from(c.clone());
    (c, w)
}

fn ev(readable: bool, read_closed: bool, writable: bool, write_closed: bool) -> EventReadiness {
    EventReadiness {
        readable,
        read_closed,
        writable,
        write_closed,
        aio: false,
        lio: false,
    }
}

#[test]
fn io_waker_starts_without_readiness() {
    let w = IoWaker::new();
    let r = w.readiness();
    assert!(!r.is_readable());
    assert!(!r.is_writable());
}

#[test]
fn io_waker_readable_event_wakes_reader_only() {
    let mut w = IoWaker::new();
    let (rc, rw) = counting();
    let (wc, ww) = counting();
    w.reader.register(&mut Context::from_waker(&rw));
    w.writer.register(&mut Context::from_waker(&ww));
    w.apply_event(ev(true, false, false, false));
    assert!(w.readiness().is_readable());
    assert!(!w.readiness().is_writable());
    assert_eq!(rc.0.load(Ordering::SeqCst), 1);
    assert_eq!(wc.0.load(Ordering::SeqCst), 0);
    // the writer is still registered
    assert!(w.writer.take().is_some());
    assert!(w.reader.take().is_none());
}

#[test]
fn io_waker_write_closed_counts_as_writable() {
    let mut w = IoWaker::new();
    w.apply_event(ev(false, false, false, true));
    assert!(w.readiness().is_writable());
    assert!(!w.readiness().is_readable());
}

#[test]
fn io_waker_clear_read_keeps_write_and_read_closed() {
    let mut w = IoWaker::new();
    w.apply_event(ev(true, false, true, false));
    let r = w.readiness();
    w.clear_read(r);
    assert!(!w.readiness().is_readable());
    assert!(w.readiness().is_writable());

    let mut w = IoWaker::new();
    w.apply_event(ev(true, true, false, false));
    let r = w.readiness();
    w.clear_read(r);
    // the read half is closed: reads still proceed (and see EOF)
    assert!(w.readiness().is_readable());
}

#[test]
fn io_waker_clear_write_keeps_read() {
    let mut w = IoWaker::new();
    w.apply_event(ev(true, false, true, false));
    let r = w.readiness();
    w.clear_write(r);
    assert!(w.readiness().is_readable());
    assert!(!w.readiness().is_writable());
}

#[test]
fn io_waker_events_accumulate() {
    let mut w = IoWaker::new();
    w.apply_event(ev(true, false, false, false));
    w.apply_event(ev(false, false, true, false));
    assert!(w.readiness().is_readable());
    assert!(w.readiness().is_writable());
}

#[test]
fn io_waker_drop_waker_forgets_without_waking() {
    let mut w = IoWaker::new();
    let (rc, rw) = counting();
    w.reader.register(&mut Context::from_waker(&rw));
    w.drop_waker();
    assert_eq!(rc.0.load(Ordering::SeqCst), 0);
    assert!(w.reader.take().is_none());
}

#[test]
fn io_waker_wake_all_wakes_both() {
    let mut w = IoWaker::new();
    let (rc, rw) = counting();
    let (wc, ww) = counting();
    w.reader.register(&mut Context::from_waker(&rw));
    w.writer.register(&mut Context::from_waker(&ww));
    w.wake_all();
    assert_eq!(rc.0.load(Ordering::SeqCst), 1);
    assert_eq!(wc.0.load(Ordering::SeqCst), 1);
}

#[test]
fn local_waker_wake_once() {
    let mut lw = LocalWaker::new();
    let (c, waker) = counting();
    lw.wake(); // nothing registered: nothing happens
    lw.register(&mut Context::from_waker(&waker));
    lw.register(&mut Context::from_waker(&waker));
    lw.wake();
    lw.wake();
    assert_eq!(c.0.load(Ordering::SeqCst), 1);
    assert!(lw.take().is_none());
}

use nio::io_waker::IoAttempt;

#[test]
fn finish_read_partial_read_drains() {
    let mut w = IoWaker::new();
    w.apply_event(ev(true, false, true, false));
    let r = w.readiness();
    assert!(w.finish_read(r, IoAttempt::Completed(10), 1024));
    assert!(!w.readiness().is_readable());
    assert!(w.readiness().is_writable());
}

#[test]
fn finish_read_full_buffer_keeps_readiness() {
    let mut w = IoWaker::new();
    w.apply_event(ev(true, false, false, false));
    let r = w.readiness();
    assert!(w.finish_read(r, IoAttempt::Completed(1024), 1024));
    assert!(w.readiness().is_readable());
    let r = w.readiness();
    // end of stream (0 bytes) keeps readiness too
    assert!(w.finish_read(r, IoAttempt::Completed(0), 1024));
    assert!(w.readiness().is_readable());
}

#[test]
fn finish_read_would_block_is_pending() {
    let mut w = IoWaker::new();
    w.apply_event(ev(true, false, false, false));
    let r = w.readiness();
    assert!(!w.finish_read(r, IoAttempt::WouldBlock, 8));
    assert!(!w.readiness().is_readable());
    let mut w = IoWaker::new();
    w.apply_event(ev(true, false, false, false));
    let r = w.readiness();
    assert!(w.finish_read(r, IoAttempt::Failed, 8));
    assert!(w.readiness().is_readable());
}

#[test]
fn finish_write_cases() {
    let mut w = IoWaker::new();
    w.apply_event(ev(true, false, true, false));
    let r = w.readiness();
    assert!(w.finish_write(r, IoAttempt::Completed(3), 8));
    assert!(!w.readiness().is_writable());
    assert!(w.readiness().is_readable());

    let mut w = IoWaker::new();
    w.apply_event(ev(false, false, true, false));
    let r = w.readiness();
    assert!(!w.finish_write(r, IoAttempt::WouldBlock, 8));
    assert!(!w.readiness().is_writable());
}

#[test]
fn finish_io_read_and_write() {
    let mut w = IoWaker::new();
    w.apply_event(ev(true, false, true, false));
    let r = w.readiness();
    assert!(w.finish_io_read(r, false));
    assert!(w.readiness().is_readable());
    let r = w.readiness();
    assert!(!w.finish_io_read(r, true));
    assert!(!w.readiness().is_readable());
    let r = w.readiness();
    assert!(!w.finish_io_write(r, true));
    assert!(!w.readiness().is_writable());
}

#[test]
fn aio_and_lio_completions_make_the_source_readable() {
    for (aio, lio) in [(true, false), (false, true)] {
        let mut w = IoWaker::new();
        w.apply_event(EventReadiness {
            readable: false,
            read_closed: false,
            writable: false,
            write_closed: false,
            aio,
            lio,
        });
        assert!(w.readiness().is_readable());
        assert!(!w.readiness().is_writable());
    }
}
