//! A slot for at most one task waker, owned by a single thread.
use std::task::{Context, Waker};
use vstd::prelude::*;

verus! {

#[verifier::external_type_specification]
#[verifier::external_body]
pub struct ExWaker(Waker);

#[verifier::external_type_specification]
#[verifier::external_body]
pub struct ExContext<'a>(Context<'a>);

/// Calls `Waker::wake`, which schedules the task behind the waker.
/// Nothing is claimed: the effect is on the task scheduler.
#[verifier::external_body]
fn wake_waker(w: Waker) {
    w.wake()
}

/// Calls `Waker::will_wake`. Its answer depends on the identity of the two
/// wakers' data and vtable, which Verus cannot see, so nothing is claimed.
#[verifier::external_body]
fn waker_will_wake(current: &Waker, other: &Waker) -> bool {
    current.will_wake(other)
}

/// Calls `Waker::clone`. The clone wakes the same task; Verus cannot see a
/// waker's contents, so nothing is claimed.
#[verifier::external_body]
fn clone_waker(w: &Waker) -> Waker {
    w.clone()
}

/// Calls `Context::waker`, the waker of the task being polled.
#[verifier::external_body]
fn context_waker<'a, 'b>(cx: &'a Context<'b>) -> &'a Waker {
    cx.waker()
}

/// Holds the waker of the task that last registered interest, if any.
pub struct LocalWaker {
    waker: Option<Waker>,
    /// How many times a held waker has been woken through this slot.
    wakes: Ghost<nat>,
}

impl LocalWaker {
    /// The waker held, if any.
    pub closed spec fn held(&self) -> Option<Waker> {
        self.waker
    }

    /// Whether a waker is held.
    pub open spec fn is_registered(&self) -> bool {
        self.held().is_some()
    }

    /// How many times a held waker has been woken through this slot.
    pub closed spec fn wake_count(&self) -> nat {
        self.wakes@
    }

    /// The wake count after a wake-up of `before`: one more when it held a
    /// waker.
    pub open spec fn woken_from(&self, before: LocalWaker) -> bool {
        &&& !self.is_registered()
        &&& self.wake_count() == before.wake_count() + (if before.is_registered() {
            1nat
        } else {
            0nat
        })
    }

    /// Creates a new, empty `LocalWaker`.
    pub fn new() -> (r: LocalWaker)
        ensures
            !r.is_registered(),
            r.wake_count() == 0,
    {
        LocalWaker { waker: None, wakes: Ghost(0) }
    }

    /// Registers the waker of the task that polls with `cx`; a waker that
    /// would wake the same task is kept as it is.
    pub fn register(&mut self, cx: &mut Context)
        ensures
            final(self).is_registered(),
            final(self).wake_count() == old(self).wake_count(),
    {
        let waker = context_waker(cx);
        match &self.waker {
            Some(old) => {
                if waker_will_wake(waker, old) {
                    return ;
                }
            },
            None => {},
        }
        self.waker = Some(clone_waker(waker));
    }

    /// Wakes the registered task, if any, and empties the slot.
    pub fn wake(&mut self)
        ensures
            final(self).woken_from(*old(self)),
    {
        if let Some(waker) = self.take() {
            wake_waker(waker);
            proof {
                self.wakes@ = self.wakes@ + 1;
            }
        }
    }

    /// Takes the registered waker out of the slot without waking it.
    pub fn take(&mut self) -> (r: Option<Waker>)
        ensures
            r == old(self).held(),
            !final(self).is_registered(),
            final(self).wake_count() == old(self).wake_count(),
    {
        self.waker.take()
    }
}

} // verus!
