//! Timers of one worker, ordered by deadline.
//!
//! Time is counted in nanoseconds since the worker's clock started. A timer
//! is identified by its key `(deadline, id)`: ids are handed out in order and
//! never reused, so two timers never share a key.
use crate::local_waker::LocalWaker;
use std::collections::BTreeMap;
use std::task::Context;
use std::time::{Duration, Instant};
use vstd::prelude::*;

verus! {

/// Pending timers, by key.
pub type Entries = BTreeMap<TimerKey, ()>;

/// The key of a timer: its deadline, then its id.
pub type TimerKey = (u64, u64);

#[verifier::external_type_specification]
#[verifier::external_body]
pub struct ExInstant(Instant);

/// Calls `Instant::now`. The result depends on the time at which it is
/// called; nothing is claimed.
#[verifier::external_body]
fn instant_now() -> Instant {
    Instant::now()
}

/// Calls `Instant::elapsed`. The result depends on the time at which it is
/// called; nothing is claimed.
#[verifier::external_body]
fn instant_elapsed(since: &Instant) -> Duration {
    since.elapsed()
}

/// Calls `Duration::as_nanos`. Verus sees nothing inside a `Duration`, so
/// nothing is claimed of the number.
#[verifier::external_body]
fn duration_as_nanos(d: &Duration) -> u128 {
    d.as_nanos()
}

/// Strict lexicographic order on timer keys, the order of `TimerKey`.
pub open spec fn key_lt(a: TimerKey, b: TimerKey) -> bool {
    a.0 < b.0 || (a.0 == b.0 && a.1 < b.1)
}

/// Calls `BTreeMap::first_key_value`: the smallest key of the map, `None`
/// when the map is empty.
#[verifier::external_body]
fn first_key(m: &Entries) -> (r: Option<TimerKey>)
    ensures
        r is None <==> m@.dom().is_empty(),
        r matches Some(k) ==> m@.contains_key(k) && forall|k2: TimerKey|
            #[trigger] m@.contains_key(k2) ==> !key_lt(k2, k),
{
    match m.first_key_value() {
        Some((k, _)) => Some(*k),
        None => None,
    }
}

/// Calls `BTreeMap::pop_first`: removes and returns the smallest key, `None`
/// when the map is empty.
#[verifier::external_body]
fn pop_first(m: &mut Entries) -> (r: Option<TimerKey>)
    ensures
        r is None <==> old(m)@.dom().is_empty(),
        r is None ==> final(m)@ == old(m)@,
        r matches Some(k) ==> {
            &&& old(m)@.contains_key(k)
            &&& forall|k2: TimerKey| #[trigger] old(m)@.contains_key(k2) ==> !key_lt(k2, k)
            &&& final(m)@ == old(m)@.remove(k)
        },
{
    match m.pop_first() {
        Some((k, _)) => Some(k),
        None => None,
    }
}

/// Calls `BTreeMap::split_off`: the map keeps the keys below `at` and the
/// keys from `at` on are returned.
#[verifier::external_body]
fn split_off(m: &mut Entries, at: &TimerKey) -> (r: Entries)
    ensures
        final(m)@.dom() == old(m)@.dom().filter(|k: TimerKey| key_lt(k, *at)),
        r@.dom() == old(m)@.dom().filter(|k: TimerKey| !key_lt(k, *at)),
{
    m.split_off(at)
}

/// A fetch up to `upto` splits the pending timers in two: those handed out
/// (deadline at or before `upto`) and those kept (deadline after it). No
/// timer is lost or handed out twice, and every timer handed out is due
/// before every timer kept.
pub proof fn law_fetch_partitions(before: Timers, after: Timers, e: Elapsed, upto: u64)
    requires
        forall|k: TimerKey| #[trigger]
            e.keys().contains(k) <==> before.pending().contains(k) && k.0 <= upto,
        forall|k: TimerKey| #[trigger]
            after.pending().contains(k) <==> before.pending().contains(k) && k.0 > upto,
    ensures
        e.keys() + after.pending() == before.pending(),
        e.keys().disjoint(after.pending()),
        forall|a: TimerKey, b: TimerKey|
            e.keys().contains(a) && after.pending().contains(b) ==> a.0 < b.0,
{
    assert(e.keys() + after.pending() =~= before.pending());
}

/// A timer created with `sleep_at(deadline)` and then fetched up to `upto`
/// is handed out exactly when `deadline <= upto`, and stays pending
/// otherwise.
pub proof fn law_sleep_then_fetch(
    t0: Timers,
    t1: Timers,
    s: Sleep,
    deadline: u64,
    t2: Timers,
    e: Elapsed,
    upto: u64,
)
    requires
        s.timer().key() == (deadline, t0.created()),
        t1.pending() == t0.pending().insert(s.timer().key()),
        forall|k: TimerKey| #[trigger]
            e.keys().contains(k) <==> t1.pending().contains(k) && k.0 <= upto,
        forall|k: TimerKey| #[trigger]
            t2.pending().contains(k) <==> t1.pending().contains(k) && k.0 > upto,
    ensures
        e.keys().contains(s.timer().key()) <==> deadline <= upto,
        t2.pending().contains(s.timer().key()) <==> upto < deadline,
{
    assert(t1.pending().contains(s.timer().key()));
}

/// After a fetch up to `upto`, no pending timer is overdue at `upto`: the
/// driver either has no timer to wait for, or waits a positive time.
pub proof fn law_no_overdue_after_fetch(t: Timers, upto: u64)
    requires
        forall|k: TimerKey| #[trigger] t.pending().contains(k) ==> k.0 > upto,
    ensures
        t.pending().is_empty() <==> t.timeout_after(upto) is None,
        t.timeout_after(upto) matches Some(d) ==> d > 0,
{
    if !t.pending().is_empty() {
        let k0 = t.pending().choose();
        assert(t.pending().contains(k0));
        lemma_earliest_exists(t);
        let e = t.earliest_deadline();
        assert(e > upto);
    }
}

proof fn lemma_earliest_exists(t: Timers)
    requires
        !t.pending().is_empty(),
    ensures
        exists|k: TimerKey|
            t.pending().contains(k) && #[trigger] k.0 == t.earliest_deadline() && forall|
                k2: TimerKey,
            | #[trigger] t.pending().contains(k2) ==> k.0 <= k2.0,
{
    let p = t.pending();
    let le = |a: TimerKey, b: TimerKey| a == b || key_lt(a, b);
    assert(vstd::relations::total_ordering(le));
    t.lemma_pending_finite();
    assert(p.len() > 0) by {
        if p.len() == 0 {
            assert(p =~= Set::empty());
        }
    }
    p.find_unique_minimal_ensures(le);
    let m = p.find_unique_minimal(le);
    assert forall|k2: TimerKey| #[trigger] p.contains(k2) implies m.0 <= k2.0 by {
        assert(vstd::relations::is_minimal(le, m, p));
        if k2.0 < m.0 {
            assert(le(k2, m));
            assert(le(m, k2));
            assert(false);
        }
    }
    assert(p.contains(m) && forall|k2: TimerKey| #[trigger] p.contains(k2) ==> m.0 <= k2.0);
}

/// The clock reading for `nanos` nanoseconds since the clock started:
/// the number itself, or `u64::MAX` when it does not fit.
pub open spec fn saturating_ticks(nanos: u128) -> u64 {
    if nanos > u64::MAX as u128 {
        u64::MAX
    } else {
        nanos as u64
    }
}

/// Converts the nanoseconds elapsed since the clock started into a clock
/// reading, saturating at `u64::MAX`.
pub fn ticks_from_nanos(nanos: u128) -> (r: u64)
    ensures
        r == saturating_ticks(nanos),
{
    if nanos > 0xffff_ffff_ffff_ffffu128 {
        0xffff_ffff_ffff_ffff
    } else {
        nanos as u64
    }
}

/// The worker's notion of the current time.
pub struct Clock {
    origin: Instant,
    current: u64,
}

impl Clock {
    /// The time last read, in nanoseconds since the clock started.
    pub closed spec fn ticks(&self) -> u64 {
        self.current
    }

    /// The instant the clock started.
    pub closed spec fn origin(&self) -> Instant {
        self.origin
    }

    /// A clock that starts now.
    pub fn new() -> (r: Clock)
        ensures
            r.ticks() == 0,
    {
        Clock { origin: instant_now(), current: 0 }
    }

    /// The time last read.
    pub fn current(&self) -> (r: u64)
        ensures
            r == self.ticks(),
    {
        self.current
    }

    /// Reads the time, remembers it and returns it: the nanoseconds elapsed
    /// since the clock started, saturating at `u64::MAX`.
    pub fn now(&mut self) -> (r: u64)
        ensures
            final(self).ticks() == r,
            final(self).origin() == old(self).origin(),
    {
        let elapsed = instant_elapsed(&self.origin);
        let nanos = duration_as_nanos(&elapsed);
        let t = ticks_from_nanos(nanos);
        self.current = t;
        t
    }
}

/// The key of one timer: its deadline and its id.
#[derive(Clone, Copy, PartialEq, Eq, Structural, Debug)]
pub struct RcTimer {
    deadline: u64,
    id: u64,
}

impl RcTimer {
    /// The key under which the timer is kept.
    pub open spec fn key(self) -> TimerKey {
        (self.spec_deadline(), self.spec_id())
    }

    pub closed spec fn spec_deadline(self) -> u64 {
        self.deadline
    }

    pub closed spec fn spec_id(self) -> u64 {
        self.id
    }

    /// When the timer fires.
    pub fn deadline(&self) -> (r: u64)
        ensures
            r == self.spec_deadline(),
    {
        self.deadline
    }

    /// Moves the deadline; the timer keeps its id.
    pub fn set_deadline(&mut self, deadline: u64)
        ensures
            final(self).spec_deadline() == deadline,
            final(self).spec_id() == old(self).spec_id(),
    {
        self.deadline = deadline;
    }
}

/// The state of one timer besides its key: whether it has fired and the
/// waker of the task waiting on it.
pub struct Timer {
    pub notified: bool,
    pub waker: LocalWaker,
}

impl Timer {
    /// A timer that has not fired and has no waiting task.
    pub fn new() -> (r: Timer)
        ensures
            !r.notified,
            !r.waker.is_registered(),
    {
        Timer { notified: false, waker: LocalWaker::new() }
    }
}

/// The timers of one worker.
pub struct Timers {
    entries: Entries,
    wakers: BTreeMap<u64, Timer>,
    next_id: u64,
    clock: Clock,
}

impl Timers {
    /// The keys of the timers waiting for their deadline.
    pub closed spec fn pending(&self) -> Set<TimerKey> {
        self.entries@.dom()
    }

    /// The waker slot of each timer that has not been dropped, by id.
    pub closed spec fn slots(&self) -> Map<u64, Timer> {
        self.wakers@
    }

    /// The pending set is finite.
    pub proof fn lemma_pending_finite(&self)
        ensures
            self.pending().finite(),
    {
    }

    /// The earliest deadline of the pending timers (meaningful when one is
    /// pending).
    pub open spec fn earliest_deadline(&self) -> u64 {
        (choose|k: TimerKey|
            self.pending().contains(k) && forall|k2: TimerKey|
                #[trigger] self.pending().contains(k2) ==> k.0 <= k2.0).0
    }

    /// How long after `since` the earliest pending timer fires: `None` when
    /// no timer is pending or the earliest deadline is before `since`.
    pub open spec fn timeout_after(&self, since: u64) -> Option<u64> {
        if self.pending().is_empty() {
            None
        } else if self.earliest_deadline() >= since {
            Some((self.earliest_deadline() - since) as u64)
        } else {
            None
        }
    }

    /// The worker's clock.
    pub closed spec fn clock_state(&self) -> Clock {
        self.clock
    }

    /// How many timers were ever created: every id is below this.
    pub closed spec fn created(&self) -> u64 {
        self.next_id
    }

    /// Every timer held has an id handed out already.
    pub closed spec fn wf(&self) -> bool {
        &&& forall|k: TimerKey| #[trigger] self.entries@.contains_key(k) ==> k.1 < self.next_id
        &&& forall|id: u64| #[trigger] self.wakers@.contains_key(id) ==> id < self.next_id
    }

    /// No timer, a clock that starts now.
    pub fn new() -> (r: Timers)
        ensures
            r.wf(),
            r.pending().is_empty(),
            r.slots().is_empty(),
            r.created() == 0,
            r.clock_state().ticks() == 0,
    {
        let r = Timers {
            entries: BTreeMap::new(),
            wakers: BTreeMap::new(),
            next_id: 0,
            clock: Clock::new(),
        };
        proof {
            assert(r.entries@.dom() =~= Set::empty());
            assert(r.wakers@ =~= Map::empty());
        }
        r
    }

    /// The worker's clock.
    pub fn clock(&self) -> (r: &Clock)
        ensures
            *r == self.clock_state(),
    {
        &self.clock
    }

    /// Reads the time into the worker's clock and returns it.
    pub fn now(&mut self) -> (r: u64)
        requires
            old(self).wf(),
        ensures
            final(self).wf(),
            final(self).clock_state().ticks() == r,
            final(self).clock_state().origin() == old(self).clock_state().origin(),
            final(self).pending() == old(self).pending(),
            final(self).slots() == old(self).slots(),
            final(self).created() == old(self).created(),
    {
        self.clock.now()
    }

    /// Whether another timer can be created.
    pub fn can_create(&self) -> (r: bool)
        ensures
            r == (self.created() < u64::MAX),
    {
        self.next_id < 0xffff_ffff_ffff_ffff
    }

    /// Whether the timer is still waiting for its deadline.
    pub fn is_pending(&self, timer: &RcTimer) -> (r: bool)
        ensures
            r == self.pending().contains(timer.key()),
    {
        let key = (timer.deadline, timer.id);
        self.entries.contains_key(&key)
    }

    /// Creates a timer that fires at `deadline`.
    pub fn sleep_at(&mut self, deadline: u64) -> (s: Sleep)
        requires
            old(self).wf(),
            old(self).created() < u64::MAX,
        ensures
            final(self).wf(),
            s.timer().key() == (deadline, old(self).created()),
            final(self).created() == old(self).created() + 1,
            final(self).pending() == old(self).pending().insert(s.timer().key()),
            final(self).slots().dom() == old(self).slots().dom().insert(old(self).created()),
            !final(self).slots()[old(self).created()].waker.is_registered(),
            !final(self).slots()[old(self).created()].notified,
            forall|id: u64|
                id != old(self).created() ==> #[trigger] final(self).slots().get(id)
                    == old(self).slots().get(id),
            final(self).clock_state() == old(self).clock_state(),
    {
        let id = self.next_id;
        self.next_id = id + 1;
        self.entries.insert((deadline, id), ());
        self.wakers.insert(id, Timer::new());
        proof {
            assert(self.entries@.dom() =~= old(self).entries@.dom().insert((deadline, id)));
            assert(self.wakers@.dom() =~= old(self).wakers@.dom().insert(id));
        }
        Sleep { timer: RcTimer { deadline, id } }
    }

    /// Stops the timer: it will not fire.
    pub fn remove(&mut self, timer: &RcTimer)
        requires
            old(self).wf(),
        ensures
            final(self).wf(),
            final(self).pending() == old(self).pending().remove(timer.key()),
            final(self).slots() == old(self).slots(),
            final(self).created() == old(self).created(),
            final(self).clock_state() == old(self).clock_state(),
    {
        let key = (timer.deadline, timer.id);
        self.entries.remove(&key);
        proof {
            assert(self.entries@.dom() =~= old(self).entries@.dom().remove(key));
        }
    }

    /// Moves a pending timer to a new deadline; a timer that already fired
    /// is left as it is.
    pub fn reset_at(&mut self, timer: &mut RcTimer, deadline: u64)
        requires
            old(self).wf(),
        ensures
            final(self).wf(),
            old(self).pending().contains(old(timer).key()) ==> {
                &&& final(timer).spec_deadline() == deadline
                &&& final(timer).spec_id() == old(timer).spec_id()
                &&& final(self).pending() == old(self).pending().remove(old(timer).key()).insert(
                    final(timer).key(),
                )
            },
            !old(self).pending().contains(old(timer).key()) ==> {
                &&& *final(timer) == *old(timer)
                &&& final(self).pending() == old(self).pending()
            },
            final(self).slots() == old(self).slots(),
            final(self).created() == old(self).created(),
            final(self).clock_state() == old(self).clock_state(),
    {
        let key = (timer.deadline, timer.id);
        if let Some(_) = self.entries.remove(&key) {
            timer.deadline = deadline;
            self.entries.insert((deadline, timer.id), ());
            proof {
                assert(self.entries@.dom() =~= old(self).entries@.dom().remove(key).insert(
                    (deadline, key.1),
                ));
            }
        }
    }

    /// Puts a timer that has fired back in the pending set.
    pub fn insert_entry(&mut self, timer: RcTimer)
        requires
            old(self).wf(),
            timer.spec_id() < old(self).created(),
        ensures
            final(self).wf(),
            final(self).pending() == old(self).pending().insert(timer.key()),
            final(self).slots() == old(self).slots(),
            final(self).created() == old(self).created(),
            final(self).clock_state() == old(self).clock_state(),
    {
        self.entries.insert((timer.deadline, timer.id), ());
        proof {
            assert(self.entries@.dom() =~= old(self).entries@.dom().insert(timer.key()));
        }
    }

    /// How long after `since` the earliest timer fires: `None` when no timer
    /// is pending, or when the earliest deadline is already before `since`.
    pub fn next_timeout(&self, since: u64) -> (r: Option<u64>)
        ensures
            r == self.timeout_after(since),
    {
        if self.entries.is_empty() {
            return None;
        }
        match first_key(&self.entries) {
            Some(k) => {
                proof {
                    let e = self.earliest_deadline();
                    assert(self.pending().contains(k) && forall|k2: TimerKey|
                        #[trigger] self.pending().contains(k2) ==> k.0 <= k2.0);
                }
                if k.0 >= since {
                    Some(k.0 - since)
                } else {
                    None
                }
            },
            None => None,
        }
    }

    /// Takes out every timer whose deadline is at or before `upto`.
    pub fn fetch(&mut self, upto: u64) -> (e: Elapsed)
        requires
            old(self).wf(),
        ensures
            final(self).wf(),
            forall|k: TimerKey| #[trigger]
                e.keys().contains(k) <==> old(self).pending().contains(k) && k.0 <= upto,
            forall|k: TimerKey| #[trigger]
                final(self).pending().contains(k) <==> old(self).pending().contains(k) && k.0
                    > upto,
            final(self).slots() == old(self).slots(),
            final(self).created() == old(self).created(),
            final(self).clock_state() == old(self).clock_state(),
    {
        let at = (upto, 0xffff_ffff_ffff_ffffu64);
        let mut left = split_off(&mut self.entries, &at);
        std::mem::swap(&mut self.entries, &mut left);
        Elapsed { entries: left }
    }

    /// Registers the task polling with `cx` to be woken when the timer fires.
    pub fn register(&mut self, timer: &RcTimer, cx: &mut Context)
        requires
            old(self).wf(),
            old(self).slots().contains_key(timer.spec_id()),
        ensures
            final(self).wf(),
            final(self).pending() == old(self).pending(),
            final(self).slots().dom() == old(self).slots().dom(),
            final(self).slots()[timer.spec_id()].waker.is_registered(),
            final(self).slots()[timer.spec_id()].notified == old(self).slots()[timer.spec_id()].notified,
            forall|id: u64|
                id != timer.spec_id() ==> #[trigger] final(self).slots().get(id) == old(self).slots().get(id),
            final(self).created() == old(self).created(),
            final(self).clock_state() == old(self).clock_state(),
    {
        let id = timer.id;
        match self.wakers.remove(&id) {
            Some(mut w) => {
                w.waker.register(cx);
                self.wakers.insert(id, w);
                proof {
                    assert(self.wakers@.dom() =~= old(self).wakers@.dom());
                }
            },
            None => {},
        }
    }

    /// Forgets a timer entirely, as when its `Sleep` is dropped.
    pub fn forget(&mut self, timer: &RcTimer)
        requires
            old(self).wf(),
        ensures
            final(self).wf(),
            final(self).pending() == old(self).pending().remove(timer.key()),
            final(self).slots() == old(self).slots().remove(timer.spec_id()),
            final(self).created() == old(self).created(),
            final(self).clock_state() == old(self).clock_state(),
    {
        self.remove(timer);
        let id = timer.id;
        self.wakers.remove(&id);
        proof {
            assert(self.wakers@ =~= old(self).wakers@.remove(id));
        }
    }
}

/// A timer of `e` whose waker is woken by [`Elapsed::notify_all`]: it still
/// has its waker slot, and so does every timer of `e` that fires before it.
pub open spec fn woken_by(e: Set<TimerKey>, slots: Map<u64, Timer>, k: TimerKey) -> bool {
    &&& e.contains(k)
    &&& slots.contains_key(k.1)
    &&& forall|k2: TimerKey| #[trigger] e.contains(k2) && key_lt(k2, k) ==> slots.contains_key(k2.1)
}

/// The timers that reached their deadline in one fetch.
pub struct Elapsed {
    entries: Entries,
}

impl Elapsed {
    /// The keys of the timers taken out.
    pub closed spec fn keys(&self) -> Set<TimerKey> {
        self.entries@.dom()
    }

    /// Wakes the tasks waiting on these timers, earliest deadline first.
    /// It stops at the first timer whose `Sleep` has been dropped: that timer
    /// and the later ones are not woken.
    pub fn notify_all(self, timers: &mut Timers)
        requires
            old(timers).wf(),
        ensures
            final(timers).wf(),
            final(timers).slots().dom() == old(timers).slots().dom(),
            forall|k: TimerKey|
                woken_by(self.keys(), old(timers).slots(), k) ==> (#[trigger] final(timers).slots()[k.1]).waker.woken_from(old(timers).slots()[k.1].waker)
                    && final(timers).slots()[k.1].notified,
            forall|id: u64|
                old(timers).slots().contains_key(id) && (forall|k: TimerKey|
                    #![trigger self.keys().contains(k)]
                    self.keys().contains(k) && k.1 == id ==> !woken_by(
                        self.keys(),
                        old(timers).slots(),
                        k,
                    )) ==> #[trigger] final(timers).slots()[id] == old(timers).slots()[id],
            final(timers).pending() == old(timers).pending(),
            final(timers).created() == old(timers).created(),
            final(timers).clock_state() == old(timers).clock_state(),
    {
        let ghost e0 = self.entries@.dom();
        let ghost s0 = timers.wakers@;
        let mut entries = self.entries;
        loop
            invariant
                timers.wf(),
                timers.entries == old(timers).entries,
                timers.next_id == old(timers).next_id,
                timers.clock == old(timers).clock,
                s0 == old(timers).wakers@,
                e0 == self.keys(),
                timers.wakers@.dom() == s0.dom(),
                forall|k: TimerKey| #[trigger] entries@.contains_key(k) ==> e0.contains(k),
                forall|p: TimerKey|
                    #![trigger e0.contains(p)]
                    e0.contains(p) && !entries@.contains_key(p) ==> woken_by(e0, s0, p)
                        && timers.wakers@[p.1].waker.woken_from(s0[p.1].waker) && timers.wakers@[p.1].notified,
                forall|p: TimerKey, m: TimerKey|
                    #![trigger e0.contains(p), entries@.contains_key(m)]
                    e0.contains(p) && !entries@.contains_key(p) && entries@.contains_key(m)
                        ==> key_lt(p, m),
                forall|id: u64|
                    s0.contains_key(id) && (forall|p: TimerKey|
                        #![trigger e0.contains(p)]
                        e0.contains(p) && !entries@.contains_key(p) ==> p.1 != id)
                        ==> #[trigger] timers.wakers@[id] == s0[id],
            decreases entries@.dom().len(),
        {
            let ghost before = entries@;
            match pop_first(&mut entries) {
                None => {
                    return ;
                },
                Some(k) => {
                    let id = k.1;
                    if !timers.wakers.contains_key(&id) {
                        proof {
                            assert forall|k2: TimerKey|
                                woken_by(e0, s0, k2) implies (#[trigger] timers.wakers@[k2.1]).waker.woken_from(s0[k2.1].waker)
                                    && timers.wakers@[k2.1].notified by {
                                if before.contains_key(k2) {
                                    if k2 != k {
                                        assert(key_lt(k, k2));
                                    }
                                    assert(false);
                                }
                            }
                        }
                        return ;
                    }
                    let removed = timers.wakers.remove(&id);
                    match removed {
                        Some(w) => {
                            let mut w = w;
                            w.notified = true;
                            w.waker.wake();
                            timers.wakers.insert(id, w);
                        },
                        None => {},
                    }
                    proof {
                        assert(timers.wakers@.dom() =~= s0.dom());
                        assert forall|p: TimerKey| #[trigger]
                            e0.contains(p) && !entries@.contains_key(p) implies woken_by(e0, s0, p)
                            && timers.wakers@[p.1].waker.woken_from(s0[p.1].waker) && timers.wakers@[p.1].notified by {
                            if p == k {
                                assert forall|k2: TimerKey| #[trigger]
                                    e0.contains(k2) && key_lt(k2, k) implies s0.contains_key(
                                    k2.1,
                                ) by {
                                    if before.contains_key(k2) {
                                        assert(!key_lt(k2, k));
                                    }
                                }
                            }
                        }
                    }
                },
            }
        }
    }
}

/// A timer handed to the task that waits on it.
pub struct Sleep {
    timer: RcTimer,
}

impl Sleep {
    /// The key of the timer.
    pub closed spec fn timer(&self) -> RcTimer {
        self.timer
    }

    /// Creates a timer that fires at `deadline`.
    pub fn at(timers: &mut Timers, deadline: u64) -> (s: Sleep)
        requires
            old(timers).wf(),
            old(timers).created() < u64::MAX,
        ensures
            final(timers).wf(),
            s.timer().key() == (deadline, old(timers).created()),
            final(timers).created() == old(timers).created() + 1,
            final(timers).pending() == old(timers).pending().insert(s.timer().key()),
            final(timers).slots().dom() == old(timers).slots().dom().insert(old(timers).created()),
            !final(timers).slots()[old(timers).created()].waker.is_registered(),
            forall|id: u64|
                id != old(timers).created() ==> #[trigger] final(timers).slots().get(id) == old(timers).slots().get(id),
            final(timers).clock_state() == old(timers).clock_state(),
    {
        timers.sleep_at(deadline)
    }

    /// When the timer fires.
    pub fn deadline(&self) -> (r: u64)
        ensures
            r == self.timer().spec_deadline(),
    {
        self.timer.deadline
    }

    /// Whether the timer has fired: it is no longer pending.
    pub fn is_elapsed(&self, timers: &Timers) -> (r: bool)
        ensures
            r == !timers.pending().contains(self.timer().key()),
    {
        !timers.is_pending(&self.timer)
    }

    /// Moves the timer to `deadline`, unless it has already fired.
    pub fn reset_at(&mut self, timers: &mut Timers, deadline: u64)
        requires
            old(timers).wf(),
        ensures
            final(timers).wf(),
            old(timers).pending().contains(old(self).timer().key()) ==> {
                &&& final(self).timer().spec_deadline() == deadline
                &&& final(self).timer().spec_id() == old(self).timer().spec_id()
                &&& final(timers).pending() == old(timers).pending().remove(
                    old(self).timer().key(),
                ).insert(final(self).timer().key())
            },
            !old(timers).pending().contains(old(self).timer().key()) ==> {
                &&& final(self).timer() == old(self).timer()
                &&& final(timers).pending() == old(timers).pending()
            },
            final(timers).slots() == old(timers).slots(),
            final(timers).created() == old(timers).created(),
            final(timers).clock_state() == old(timers).clock_state(),
    {
        timers.reset_at(&mut self.timer, deadline);
    }

    /// Moves the timer to `duration` after the time last read, unless it
    /// has already fired.
    pub fn reset(&mut self, timers: &mut Timers, duration: u64)
        requires
            old(timers).wf(),
            old(timers).clock_state().ticks() + duration <= u64::MAX,
        ensures
            final(timers).wf(),
            old(timers).pending().contains(old(self).timer().key()) ==> {
                &&& final(self).timer().spec_deadline() == old(timers).clock_state().ticks()
                    + duration
                &&& final(self).timer().spec_id() == old(self).timer().spec_id()
                &&& final(timers).pending() == old(timers).pending().remove(
                    old(self).timer().key(),
                ).insert(final(self).timer().key())
            },
            !old(timers).pending().contains(old(self).timer().key()) ==> {
                &&& final(self).timer() == old(self).timer()
                &&& final(timers).pending() == old(timers).pending()
            },
            final(timers).slots() == old(timers).slots(),
            final(timers).created() == old(timers).created(),
            final(timers).clock_state() == old(timers).clock_state(),
    {
        let deadline = timers.clock.current() + duration;
        timers.reset_at(&mut self.timer, deadline);
    }

    /// What polling the timer decides: `true` once it has fired; otherwise
    /// the polling task is registered to be woken and `false` is returned.
    pub fn poll_elapsed(&self, timers: &mut Timers, cx: &mut Context) -> (r: bool)
        requires
            old(timers).wf(),
            old(timers).slots().contains_key(self.timer().spec_id()),
        ensures
            final(timers).wf(),
            r == !old(timers).pending().contains(self.timer().key()),
            r ==> final(timers).slots() == old(timers).slots(),
            !r ==> final(timers).slots()[self.timer().spec_id()].waker.is_registered(),
            !r ==> final(timers).slots().dom() == old(timers).slots().dom(),
            final(timers).pending() == old(timers).pending(),
            final(timers).created() == old(timers).created(),
            final(timers).clock_state() == old(timers).clock_state(),
    {
        if self.is_elapsed(timers) {
            return true;
        }
        timers.register(&self.timer, cx);
        false
    }

    /// Drops the timer: it will not fire and its waker slot is released.
    pub fn cancel(self, timers: &mut Timers)
        requires
            old(timers).wf(),
        ensures
            final(timers).wf(),
            final(timers).pending() == old(timers).pending().remove(self.timer().key()),
            final(timers).slots() == old(timers).slots().remove(self.timer().spec_id()),
            final(timers).created() == old(timers).created(),
            final(timers).clock_state() == old(timers).clock_state(),
    {
        timers.forget(&self.timer);
    }
}

/// A timer that fires `duration` after the time last read.
pub fn sleep(timers: &mut Timers, duration: u64) -> (s: Sleep)
    requires
        old(timers).wf(),
        old(timers).created() < u64::MAX,
        old(timers).clock_state().ticks() + duration <= u64::MAX,
    ensures
        final(timers).wf(),
        s.timer().key() == (
            (old(timers).clock_state().ticks() + duration) as u64,
            old(timers).created(),
        ),
        final(timers).created() == old(timers).created() + 1,
        final(timers).pending() == old(timers).pending().insert(s.timer().key()),
        final(timers).slots().dom() == old(timers).slots().dom().insert(old(timers).created()),
        !final(timers).slots()[old(timers).created()].waker.is_registered(),
        forall|id: u64|
            id != old(timers).created() ==> #[trigger] final(timers).slots().get(id) == old(timers).slots().get(id),
        final(timers).clock_state() == old(timers).clock_state(),
{
    let deadline = timers.clock.current() + duration;
    timers.sleep_at(deadline)
}

/// A timer that fires again every `period` after each tick.
pub struct Interval {
    delay: Sleep,
    period: u64,
}

impl Interval {
    /// The timer of the next tick.
    pub closed spec fn timer(&self) -> RcTimer {
        self.delay.timer
    }

    /// The time between two ticks.
    pub closed spec fn spec_period(&self) -> u64 {
        self.period
    }

    /// An interval whose first tick is at `deadline`.
    pub fn at(timers: &mut Timers, deadline: u64, period: u64) -> (r: Interval)
        requires
            old(timers).wf(),
            old(timers).created() < u64::MAX,
        ensures
            final(timers).wf(),
            r.timer().key() == (deadline, old(timers).created()),
            r.spec_period() == period,
            final(timers).created() == old(timers).created() + 1,
            final(timers).pending() == old(timers).pending().insert(r.timer().key()),
            final(timers).slots().dom() == old(timers).slots().dom().insert(old(timers).created()),
            !final(timers).slots()[old(timers).created()].waker.is_registered(),
            final(timers).clock_state() == old(timers).clock_state(),
    {
        Interval { delay: Sleep::at(timers, deadline), period }
    }

    /// The time between two ticks.
    pub fn period(&self) -> (r: u64)
        ensures
            r == self.spec_period(),
    {
        self.period
    }

    /// Changes the time between ticks, from the next tick on.
    pub fn set_period(&mut self, period: u64)
        ensures
            final(self).spec_period() == period,
            final(self).timer() == old(self).timer(),
    {
        self.period = period;
    }

    /// The timer of the next tick.
    pub fn delay(&self) -> (r: &Sleep)
        ensures
            r.timer() == self.timer(),
    {
        &self.delay
    }

    /// Drops the interval: its timer will not fire again and its slot is
    /// released.
    pub fn cancel(self, timers: &mut Timers)
        requires
            old(timers).wf(),
        ensures
            final(timers).wf(),
            final(timers).pending() == old(timers).pending().remove(self.timer().key()),
            final(timers).slots() == old(timers).slots().remove(self.timer().spec_id()),
            final(timers).created() == old(timers).created(),
            final(timers).clock_state() == old(timers).clock_state(),
    {
        self.delay.cancel(timers);
    }

    /// What polling a tick decides. The polling task is registered to be
    /// woken; when the timer has fired it is put back with its deadline one
    /// period after the time last read, and `true` (a tick) is returned.
    pub fn poll_tick(&mut self, timers: &mut Timers, cx: &mut Context) -> (r: bool)
        requires
            old(timers).wf(),
            old(timers).slots().contains_key(old(self).timer().spec_id()),
            old(self).timer().spec_id() < old(timers).created(),
            old(timers).clock_state().ticks() + old(self).spec_period() <= u64::MAX,
        ensures
            final(timers).wf(),
            r == !old(timers).pending().contains(old(self).timer().key()),
            final(timers).slots().dom() == old(timers).slots().dom(),
            final(timers).slots()[old(self).timer().spec_id()].waker.is_registered(),
            final(self).spec_period() == old(self).spec_period(),
            final(self).timer().spec_id() == old(self).timer().spec_id(),
            r ==> final(self).timer().spec_deadline() == old(timers).clock_state().ticks()
                + old(self).spec_period(),
            r ==> final(timers).pending() == old(timers).pending().insert(final(self).timer().key()),
            !r ==> final(self).timer() == old(self).timer(),
            !r ==> final(timers).pending() == old(timers).pending(),
            final(timers).created() == old(timers).created(),
            final(timers).clock_state() == old(timers).clock_state(),
    {
        timers.register(&self.delay.timer, cx);
        if self.delay.is_elapsed(timers) {
            let next = timers.clock.current() + self.period;
            self.delay.timer.set_deadline(next);
            timers.insert_entry(self.delay.timer);
            return true;
        }
        false
    }
}

/// An interval whose first tick is at the time last read.
pub fn interval(timers: &mut Timers, period: u64) -> (r: Interval)
    requires
        old(timers).wf(),
        old(timers).created() < u64::MAX,
    ensures
        final(timers).wf(),
        r.timer().key() == (old(timers).clock_state().ticks(), old(timers).created()),
        r.spec_period() == period,
        final(timers).created() == old(timers).created() + 1,
        final(timers).pending() == old(timers).pending().insert(r.timer().key()),
        final(timers).slots().dom() == old(timers).slots().dom().insert(old(timers).created()),
        !final(timers).slots()[old(timers).created()].waker.is_registered(),
        final(timers).clock_state() == old(timers).clock_state(),
{
    Interval { delay: sleep(timers, 0), period }
}

/// A value (in practice, a future) raced against a timer.
pub struct Timeout<T> {
    delay: Sleep,
    fut: T,
}

/// How one poll of a [`Timeout`] ends.
#[derive(Clone, Copy, PartialEq, Eq, Structural, Debug)]
pub enum RaceOutcome {
    /// The inner future is ready: its value is the result.
    Value,
    /// The timer fired first: the result is `None`.
    TimedOut,
    /// Neither: the task waits, registered with the timer.
    Pending,
}

impl<T> Timeout<T> {
    /// Decides one poll of the race, once the inner future was polled and
    /// was `inner_ready` or not: the inner future wins when it is ready, and
    /// the timer is looked at only otherwise.
    pub fn poll_race(&self, inner_ready: bool, timers: &mut Timers, cx: &mut Context) -> (r:
        RaceOutcome)
        requires
            old(timers).wf(),
            !inner_ready ==> old(timers).slots().contains_key(self.timer().spec_id()),
        ensures
            final(timers).wf(),
            inner_ready ==> r == RaceOutcome::Value && final(timers).slots() == old(timers).slots(),
            !inner_ready ==> r != RaceOutcome::Value,
            !inner_ready ==> ((r == RaceOutcome::TimedOut) == !old(timers).pending().contains(
                self.timer().key(),
            )),
            r == RaceOutcome::Pending ==> final(timers).slots()[self.timer().spec_id()].waker.is_registered(),
            r == RaceOutcome::Pending ==> final(timers).slots().dom() == old(timers).slots().dom(),
            r == RaceOutcome::TimedOut ==> final(timers).slots() == old(timers).slots(),
            final(timers).pending() == old(timers).pending(),
            final(timers).created() == old(timers).created(),
            final(timers).clock_state() == old(timers).clock_state(),
    {
        if inner_ready {
            RaceOutcome::Value
        } else if self.delay.poll_elapsed(timers, cx) {
            RaceOutcome::TimedOut
        } else {
            RaceOutcome::Pending
        }
    }

    /// The timer.
    pub closed spec fn timer(&self) -> RcTimer {
        self.delay.timer
    }

    /// The value raced.
    pub closed spec fn inner(&self) -> T {
        self.fut
    }

    /// Races `future` against a timer that fires at `deadline`.
    pub fn at(timers: &mut Timers, deadline: u64, future: T) -> (r: Timeout<T>)
        requires
            old(timers).wf(),
            old(timers).created() < u64::MAX,
        ensures
            final(timers).wf(),
            r.inner() == future,
            r.timer().key() == (deadline, old(timers).created()),
            final(timers).created() == old(timers).created() + 1,
            final(timers).pending() == old(timers).pending().insert(r.timer().key()),
            final(timers).slots().dom() == old(timers).slots().dom().insert(old(timers).created()),
            !final(timers).slots()[old(timers).created()].waker.is_registered(),
            final(timers).clock_state() == old(timers).clock_state(),
    {
        Timeout { delay: Sleep::at(timers, deadline), fut: future }
    }

    /// The value raced.
    pub fn get_ref(&self) -> (r: &T)
        ensures
            *r == self.inner(),
    {
        &self.fut
    }

    /// The value raced, mutably.
    pub fn get_mut(&mut self) -> (r: &mut T)
        ensures
            *r == old(self).inner(),
            final(self).inner() == *final(r),
            final(self).timer() == old(self).timer(),
    {
        &mut self.fut
    }

    /// Gives the value back, dropping the race.
    pub fn into_inner(self) -> (r: T)
        ensures
            r == self.inner(),
    {
        self.fut
    }

    /// Drops the race: the timer will not fire and its slot is released;
    /// the value is given back.
    pub fn cancel(self, timers: &mut Timers) -> (r: T)
        requires
            old(timers).wf(),
        ensures
            r == self.inner(),
            final(timers).wf(),
            final(timers).pending() == old(timers).pending().remove(self.timer().key()),
            final(timers).slots() == old(timers).slots().remove(self.timer().spec_id()),
            final(timers).created() == old(timers).created(),
            final(timers).clock_state() == old(timers).clock_state(),
    {
        self.delay.cancel(timers);
        self.fut
    }

    /// The timer.
    pub fn delay(&self) -> (r: &Sleep)
        ensures
            r.timer() == self.timer(),
    {
        &self.delay
    }
}

/// Races `future` against a timer that fires `duration` after the time last
/// read.
pub fn timeout<T>(timers: &mut Timers, duration: u64, future: T) -> (r: Timeout<T>)
    requires
        old(timers).wf(),
        old(timers).created() < u64::MAX,
        old(timers).clock_state().ticks() + duration <= u64::MAX,
    ensures
        final(timers).wf(),
        r.inner() == future,
        r.timer().key() == (
            (old(timers).clock_state().ticks() + duration) as u64,
            old(timers).created(),
        ),
        final(timers).created() == old(timers).created() + 1,
        final(timers).pending() == old(timers).pending().insert(r.timer().key()),
        final(timers).slots().dom() == old(timers).slots().dom().insert(old(timers).created()),
        !final(timers).slots()[old(timers).created()].waker.is_registered(),
        final(timers).clock_state() == old(timers).clock_state(),
{
    Timeout { delay: sleep(timers, duration), fut: future }
}

} // verus!
