//! The handshake between a thread that blocks on a future and the wakers
//! of that future.
//!
//! State transitions:
//!
//! ```text
//! RUNNING -> (SLEEP? -> NOTIFIED -> RUNNING)* -> Complete?
//! ```
use vstd::prelude::*;

verus! {

/// The state that the blocked thread and the wakers share.
#[derive(Clone, Copy, PartialEq, Eq, Structural, Debug)]
pub enum SignalState {
    /// The thread is polling the future.
    Running,
    /// A wake-up arrived that the thread has not consumed yet.
    Notified,
    /// The thread waits for a wake-up.
    Sleep,
}

/// What a wake-up does: the state becomes `Notified`; the sleeping thread
/// must be signalled when it was asleep.
pub open spec fn wake_step(state: SignalState) -> (SignalState, bool) {
    (SignalState::Notified, state == SignalState::Sleep)
}

/// What the thread does when the future is pending: it consumes a pending
/// wake-up and goes on, or it goes to sleep.
pub open spec fn wait_step(state: SignalState) -> (SignalState, bool) {
    if state == SignalState::Notified {
        (SignalState::Running, false)
    } else {
        (SignalState::Sleep, true)
    }
}

/// What the thread does each time it wakes from sleep: it goes on when a
/// wake-up arrived, and sleeps again on a spurious wake-up.
pub open spec fn wakeup_step(state: SignalState) -> (SignalState, bool) {
    if state == SignalState::Notified {
        (SignalState::Running, true)
    } else {
        (state, false)
    }
}

/// A wake-up: returns the new state and whether the sleeping thread must be
/// signalled.
pub fn on_wake(state: SignalState) -> (r: (SignalState, bool))
    ensures
        r == wake_step(state),
{
    let sleeping = match state {
        SignalState::Sleep => true,
        _ => false,
    };
    (SignalState::Notified, sleeping)
}

/// The future is pending: returns the new state and whether the thread must
/// sleep.
pub fn on_wait(state: SignalState) -> (r: (SignalState, bool))
    ensures
        r == wait_step(state),
{
    match state {
        SignalState::Notified => (SignalState::Running, false),
        _ => (SignalState::Sleep, true),
    }
}

/// The thread woke from sleep: returns the new state and whether it may
/// poll again.
pub fn on_wakeup(state: SignalState) -> (r: (SignalState, bool))
    ensures
        r == wakeup_step(state),
{
    match state {
        SignalState::Notified => (SignalState::Running, true),
        _ => (state, false),
    }
}

/// No wake-up is lost. A wake-up that comes before the thread waits lets it
/// go on without sleeping; one that comes while it sleeps signals it, and
/// the thread then goes on.
pub proof fn law_no_lost_wakeup(state: SignalState)
    ensures
        !wait_step(wake_step(state).0).1,
        wait_step(wake_step(state).0).0 == SignalState::Running,
        wake_step(wait_step(state).0).1 == wait_step(state).1,
        wait_step(state).1 ==> wakeup_step(wake_step(wait_step(state).0).0)
            == (SignalState::Running, true),
{
}

/// A spurious wake-up keeps the thread asleep.
pub proof fn law_spurious_wakeup_sleeps_again()
    ensures
        wakeup_step(SignalState::Sleep) == (SignalState::Sleep, false),
{
}

/// A future that gives way once: its first poll asks to be woken and
/// waits, the next one completes.
pub struct YieldNow {
    yielded: bool,
}

/// What one poll of [`YieldNow`] does.
#[derive(Clone, Copy, PartialEq, Eq, Structural, Debug)]
pub enum YieldStep {
    /// Complete.
    Ready,
    /// Wake the polling task, then wait.
    WakeAndWait,
}

impl YieldNow {
    /// Whether the future has already given way.
    pub closed spec fn has_yielded(&self) -> bool {
        self.yielded
    }

    /// A future that has not given way yet.
    pub fn new() -> (r: YieldNow)
        ensures
            !r.has_yielded(),
    {
        YieldNow { yielded: false }
    }

    /// Decides one poll: wait once, then complete.
    pub fn poll_step(&mut self) -> (s: YieldStep)
        ensures
            s == (if old(self).has_yielded() {
                YieldStep::Ready
            } else {
                YieldStep::WakeAndWait
            }),
            final(self).has_yielded(),
    {
        if self.yielded {
            return YieldStep::Ready;
        }
        self.yielded = true;
        YieldStep::WakeAndWait
    }
}

} // verus!
