use nio::timer::{interval, sleep, timeout, Interval, RaceOutcome, Sleep, Timeout, Timers};
use std::sync::atomic::{AtomicUsize, Ordering};
use std::sync::Arc;
use std::task::{Context, Wake, Waker};

struct CountingWaker(AtomicUsize);

impl Wake for CountingWaker {
    fn wake(self: Arc<Self>) {
        self.0.fetch_add(1, Ordering::SeqCst);
    }
}

fn counting() -> (Arc<CountingWaker>, Waker) {
    let c = Arc::new(CountingWaker(AtomicUsize::new(0)));
    let w = Waker::from(c.clone());
    (c, w)
}

#[test]
fn timers_next_timeout_is_earliest() {
    let mut t = Timers::new();
    assert_eq!(t.next_timeout(0), None);
    let _a = t.sleep_at(300);
    let _b = t.sleep_at(100);
    let _c = t.sleep_at(200);
    assert_eq!(t.next_timeout(40), Some(60));
    assert_eq!(t.next_timeout(100), Some(0));
    // the earliest deadline has passed
    assert_eq!(t.next_timeout(150), None);
}

#[test]
fn timers_fetch_takes_due_timers() {
    let mut t = Timers::new();
    let a = t.sleep_at(100);
    let b = t.sleep_at(200);
    let c = t.sleep_at(300);
    assert!(!a.is_elapsed(&t));
    let e = t.fetch(200);
    e.notify_all(&mut t);
    assert!(a.is_elapsed(&t));
    assert!(b.is_elapsed(&t));
    assert!(!c.is_elapsed(&t));
    assert_eq!(t.next_timeout(200), Some(100));
}

#[test]
fn timers_notify_wakes_in_order_and_stops_at_dropped() {
    let mut t = Timers::new();
    let a = t.sleep_at(10);
    let b = t.sleep_at(20);
    let c = t.sleep_at(30);
    let (ca, wa) = counting();
    let (cb, wb) = counting();
    let (cc, wc) = counting();
    assert!(!a.poll_elapsed(&mut t, &mut Context::from_waker(&wa)));
    assert!(!b.poll_elapsed(&mut t, &mut Context::from_waker(&wb)));
    assert!(!c.poll_elapsed(&mut t, &mut Context::from_waker(&wc)));
    let e = t.fetch(100);
    // b is dropped after the fetch: c, which fires later, is not woken
    b.cancel(&mut t);
    e.notify_all(&mut t);
    assert_eq!(ca.0.load(Ordering::SeqCst), 1);
    assert_eq!(cb.0.load(Ordering::SeqCst), 0);
    assert_eq!(cc.0.load(Ordering::SeqCst), 0);
    assert!(a.poll_elapsed(&mut t, &mut Context::from_waker(&wa)));
}

#[test]
fn sleep_reset_and_cancel() {
    let mut t = Timers::new();
    let mut s = Sleep::at(&mut t, 100);
    assert_eq!(s.deadline(), 100);
    s.reset_at(&mut t, 50);
    assert_eq!(s.deadline(), 50);
    assert_eq!(t.next_timeout(0), Some(50));
    let e = t.fetch(60);
    e.notify_all(&mut t);
    assert!(s.is_elapsed(&t));
    // a fired timer is not moved
    s.reset_at(&mut t, 500);
    assert_eq!(s.deadline(), 50);
    assert_eq!(t.next_timeout(0), None);

    let other = Sleep::at(&mut t, 70);
    other.cancel(&mut t);
    assert_eq!(t.next_timeout(0), None);

    let mut r = sleep(&mut t, 5);
    assert_eq!(r.deadline(), t.clock().current() + 5);
    r.reset(&mut t, 9);
    assert_eq!(r.deadline(), t.clock().current() + 9);
}

#[test]
fn interval_ticks_every_period() {
    let mut t = Timers::new();
    let mut i = Interval::at(&mut t, 100, 40);
    assert_eq!(i.period(), 40);
    let (c, w) = counting();
    let mut cx = Context::from_waker(&w);
    assert!(!i.poll_tick(&mut t, &mut cx));
    t.fetch(100).notify_all(&mut t);
    assert_eq!(c.0.load(Ordering::SeqCst), 1);
    assert!(i.poll_tick(&mut t, &mut cx));
    let now = t.clock().current();
    assert_eq!(i.delay().deadline(), now + 40);
    assert!(!i.poll_tick(&mut t, &mut cx));
    i.set_period(10);
    assert_eq!(i.period(), 10);

    let j = interval(&mut t, 25);
    assert_eq!(j.delay().deadline(), t.clock().current());
    assert_eq!(j.period(), 25);
}

#[test]
fn timeout_wraps_value() {
    let mut t = Timers::new();
    let mut to: Timeout<u32> = Timeout::at(&mut t, 100, 7);
    assert_eq!(*to.get_ref(), 7);
    *to.get_mut() = 8;
    assert_eq!(to.delay().deadline(), 100);
    assert!(!to.delay().is_elapsed(&t));
    t.fetch(100).notify_all(&mut t);
    assert!(to.delay().is_elapsed(&t));
    assert_eq!(to.into_inner(), 8);

    let to2 = timeout(&mut t, 30, "x");
    assert_eq!(to2.delay().deadline(), t.clock().current() + 30);
    assert_eq!(to2.into_inner(), "x");
}

#[test]
fn clock_now_is_remembered() {
    let mut t = Timers::new();
    let a = t.now();
    assert_eq!(t.clock().current(), a);
    let b = t.now();
    assert!(b >= a);
}

#[test]
fn timer_new_is_idle() {
    let mut t = nio::timer::Timer::new();
    assert!(!t.notified);
    assert!(t.waker.take().is_none());
}

#[test]
fn nanos_saturate_into_ticks() {
    assert_eq!(nio::timer::ticks_from_nanos(0), 0);
    assert_eq!(nio::timer::ticks_from_nanos(1_500), 1_500);
    assert_eq!(nio::timer::ticks_from_nanos(u64::MAX as u128), u64::MAX);
    assert_eq!(nio::timer::ticks_from_nanos(u64::MAX as u128 + 1), u64::MAX);
}

#[test]
fn fire_timers_wakes_due_tasks() {
    let mut t = Timers::new();
    let a = Sleep::at(&mut t, 0);
    let b = Sleep::at(&mut t, u64::MAX);
    let (wa, waker_a) = counting();
    let (wb, waker_b) = counting();
    assert!(!a.poll_elapsed(&mut t, &mut Context::from_waker(&waker_a)));
    assert!(!b.poll_elapsed(&mut t, &mut Context::from_waker(&waker_b)));
    let now = nio::event_loop::fire_timers(&mut t);
    assert!(now < u64::MAX);
    assert_eq!(wa.0.load(Ordering::SeqCst), 1);
    assert_eq!(wb.0.load(Ordering::SeqCst), 0);
    assert!(a.is_elapsed(&t));
    assert!(!b.is_elapsed(&t));
}

#[test]
fn timeout_race_prefers_the_inner_future() {
    let mut t = Timers::new();
    let to = timeout(&mut t, 100, 5u32);
    let (_c, w) = counting();
    let mut cx = Context::from_waker(&w);
    assert_eq!(to.poll_race(true, &mut t, &mut cx), RaceOutcome::Value);
    assert_eq!(to.poll_race(false, &mut t, &mut cx), RaceOutcome::Pending);
    let e = t.fetch(1_000);
    e.notify_all(&mut t);
    // the inner future still wins when it is ready
    assert_eq!(to.poll_race(true, &mut t, &mut cx), RaceOutcome::Value);
    assert_eq!(to.poll_race(false, &mut t, &mut cx), RaceOutcome::TimedOut);
}
