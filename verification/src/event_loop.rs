//! The decisions a worker takes between two rounds of running tasks.
use crate::task_queue::{accept_notify_step, shared_of, Counter, TaskQueue};
use crate::timer::{woken_by, TimerKey, Timers};
use vstd::prelude::*;

verus! {

/// The timers of `pending` due by `now`.
pub open spec fn due(pending: Set<TimerKey>, now: u64) -> Set<TimerKey> {
    pending.filter(|k: TimerKey| k.0 <= now)
}

/// The end-of-round timer step: reads the clock, takes out every timer due
/// by then and wakes the tasks waiting on them, earliest first, up to the
/// first timer whose `Sleep` was dropped. Returns the time read.
pub fn fire_timers(timers: &mut Timers) -> (now: u64)
    requires
        old(timers).wf(),
    ensures
        final(timers).wf(),
        final(timers).clock_state().ticks() == now,
        forall|k: TimerKey| #[trigger]
            final(timers).pending().contains(k) <==> old(timers).pending().contains(k) && k.0
                > now,
        final(timers).slots().dom() == old(timers).slots().dom(),
        forall|k: TimerKey|
            woken_by(due(old(timers).pending(), now), old(timers).slots(), k) ==> {
                &&& (#[trigger] final(timers).slots()[k.1]).waker.woken_from(
                    old(timers).slots()[k.1].waker,
                )
                &&& final(timers).slots()[k.1].notified
            },
        final(timers).created() == old(timers).created(),
{
    let now = timers.now();
    let expired = timers.fetch(now);
    proof {
        assert(expired.keys() =~= due(old(timers).pending(), now));
    }
    expired.notify_all(timers);
    now
}

/// One step of a round of the event loop.
#[derive(Clone, Copy, PartialEq, Eq, Structural, Debug)]
pub enum RoundStep {
    /// Poll the task at the front of the local queue.
    RunTask,
    /// End the round: fire the timers, then poll the I/O driver.
    EndRound,
}

/// A round of the event loop: at most `tick` task polls before the I/O
/// driver is polled again.
pub struct Round {
    tick: u32,
    polled: u32,
}

impl Round {
    /// The most tasks polled in one round.
    pub closed spec fn limit(&self) -> u32 {
        self.tick
    }

    /// The tasks polled since the round started.
    pub closed spec fn polled(&self) -> u32 {
        self.polled
    }

    /// A round never polls more tasks than its limit.
    pub open spec fn wf(&self) -> bool {
        self.polled() <= self.limit()
    }

    /// A round of at most `tick` task polls, none done yet.
    pub fn new(tick: u32) -> (r: Round)
        ensures
            r.wf(),
            r.limit() == tick,
            r.polled() == 0,
    {
        Round { tick, polled: 0 }
    }

    /// Decides the next step: poll a task while the local queue has one and
    /// fewer than `tick` were polled this round; otherwise end the round,
    /// and the next round starts with no task polled.
    pub fn next_step(&mut self, local_queue_is_empty: bool) -> (s: RoundStep)
        requires
            old(self).wf(),
        ensures
            final(self).wf(),
            final(self).limit() == old(self).limit(),
            (s == RoundStep::RunTask) == (!local_queue_is_empty && old(self).polled() < old(
                self,
            ).limit()),
            s == RoundStep::RunTask ==> final(self).polled() == old(self).polled() + 1,
            s == RoundStep::EndRound ==> final(self).polled() == 0,
    {
        if !local_queue_is_empty && self.polled < self.tick {
            self.polled = self.polled + 1;
            RoundStep::RunTask
        } else {
            self.polled = 0;
            RoundStep::EndRound
        }
    }
}

/// What a worker does before it polls its I/O driver.
#[derive(Clone, Copy)]
pub struct PollPlan {
    /// The worker's counts, as read for this decision.
    pub counter: Counter,
    /// Whether to move the tasks counted as shared into the local queue.
    pub move_shared: bool,
    /// How long the driver may block, in nanoseconds: `None` for no limit.
    pub timeout: Option<u64>,
}

/// Decides the end of a round from the counters `counter` that the worker
/// read (by accepting its notification when its local queue is empty):
/// shared tasks, if any, are moved to the local queue; the driver may then
/// block until the next timer when there is no work at all, and must not
/// block otherwise.
pub fn decide_poll(counter: Counter, timers: &Timers, local_queue_is_empty: bool) -> (r:
    PollPlan)
    ensures
        r.counter == counter,
        r.move_shared == (shared_of(counter.word()) > 0),
        !(local_queue_is_empty && !r.move_shared) ==> r.timeout == Some(0u64),
        local_queue_is_empty && !r.move_shared ==> r.timeout == timers.timeout_after(
            timers.clock_state().ticks(),
        ),
{
    let move_shared = counter.shared_queue_has_data();
    let idle = local_queue_is_empty && !move_shared;
    let timeout = if idle {
        timers.next_timeout(timers.clock().current())
    } else {
        Some(0)
    };
    PollPlan { counter, move_shared, timeout }
}

/// Plans the end of a round. With an empty local queue the worker first
/// accepts its notification (the flag clears only if the shared queue is
/// empty too); otherwise it just reads its counts. Shared tasks, if any, are
/// moved to the local queue. The driver may then block until the next timer
/// when there is no work at all, and must not block otherwise.
pub fn plan_poll(queue: &mut TaskQueue, timers: &Timers, local_queue_is_empty: bool) -> (r:
    PollPlan)
    ensures
        r.counter.word() == old(queue).word(),
        local_queue_is_empty ==> final(queue).word() == accept_notify_step(old(queue).word()),
        !local_queue_is_empty ==> final(queue).word() == old(queue).word(),
        r.move_shared == (shared_of(old(queue).word()) > 0),
        !(local_queue_is_empty && !r.move_shared) ==> r.timeout == Some(0u64),
        local_queue_is_empty && !r.move_shared ==> r.timeout == timers.timeout_after(timers.clock_state().ticks()),
{
    let counter = if local_queue_is_empty {
        queue.accept_notify_once_if_shared_queue_is_empty()
    } else {
        queue.load()
    };
    decide_poll(counter, timers, local_queue_is_empty)
}

} // verus!
