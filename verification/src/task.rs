//! Where a task that becomes ready goes.
use crate::worker::WorkerId;
use vstd::prelude::*;

verus! {

/// How a task may be run.
#[derive(Clone, Copy, PartialEq, Eq, Structural, Debug)]
pub enum TaskKind {
    /// Any worker may run it.
    Sendable,
    /// Only the given worker may run it.
    Pinned(WorkerId),
}

/// What the runtime keeps with each task.
pub struct Metadata {
    pub kind: TaskKind,
}

/// Where a ready task is put.
#[derive(Clone, Copy, PartialEq, Eq, Structural, Debug)]
pub enum Placement {
    /// The shared queue of the least loaded worker.
    LeastLoaded,
    /// The local queue of the worker that is running now.
    LocalQueue,
    /// The shared queue of the given worker.
    SharedQueueOf(WorkerId),
}

/// Whether the thread running worker `current` (`None` off the workers) is
/// the thread of worker `worker`. A task pinned to `worker` may be polled or
/// dropped only where this holds.
pub fn is_same_worker(current: Option<WorkerId>, worker: WorkerId) -> (r: bool)
    ensures
        r == (current == Some(worker)),
{
    match current {
        Some(cur) => cur == worker,
        None => false,
    }
}

/// The placement of a task of kind `kind` that becomes ready on a thread
/// running worker `current` (`None` off the workers): a pinned task goes to
/// its own worker, straight into the local queue when that is the current
/// one; any other task goes to the least loaded worker.
pub fn placement(kind: TaskKind, current: Option<WorkerId>) -> (r: Placement)
    ensures
        r == (match kind {
            TaskKind::Sendable => Placement::LeastLoaded,
            TaskKind::Pinned(id) => if current == Some(id) {
                Placement::LocalQueue
            } else {
                Placement::SharedQueueOf(id)
            },
        }),
{
    match kind {
        TaskKind::Sendable => Placement::LeastLoaded,
        TaskKind::Pinned(id) => {
            if is_same_worker(current, id) {
                Placement::LocalQueue
            } else {
                Placement::SharedQueueOf(id)
            }
        },
    }
}

impl Metadata {
    /// The placement of the task, woken while worker `current` runs.
    pub fn placement(&self, current: Option<WorkerId>) -> (r: Placement)
        ensures
            r == placement_of(self.kind, current),
            self.kind == TaskKind::Sendable ==> r == Placement::LeastLoaded,
            self.kind matches TaskKind::Pinned(id) ==> (r == Placement::LocalQueue <==> current
                == Some(id)),
            self.kind matches TaskKind::Pinned(id) ==> (r == Placement::LocalQueue || r
                == Placement::SharedQueueOf(id)),
    {
        placement(self.kind, current)
    }
}

/// The placement that [`placement`] computes.
pub open spec fn placement_of(kind: TaskKind, current: Option<WorkerId>) -> Placement {
    match kind {
        TaskKind::Sendable => Placement::LeastLoaded,
        TaskKind::Pinned(id) => if current == Some(id) {
            Placement::LocalQueue
        } else {
            Placement::SharedQueueOf(id)
        },
    }
}

/// A sendable task is always spread: wherever it becomes ready, on a worker
/// or off the workers, it goes to the least loaded worker and never stays in
/// the local queue of the worker that woke it.
pub proof fn law_sendable_goes_to_least_loaded(current: Option<WorkerId>)
    ensures
        placement_of(TaskKind::Sendable, current) == Placement::LeastLoaded,
        placement_of(TaskKind::Sendable, current) != Placement::LocalQueue,
{
}

/// A pinned task never leaves its worker: wherever it becomes ready, it is
/// placed on that worker's local or shared queue.
pub proof fn law_pinned_stays_on_its_worker(id: WorkerId, current: Option<WorkerId>)
    ensures
        placement_of(TaskKind::Pinned(id), current) == Placement::LocalQueue ==> current == Some(id),
        placement_of(TaskKind::Pinned(id), current) != Placement::LocalQueue
            ==> placement_of(TaskKind::Pinned(id), current) == Placement::SharedQueueOf(id),
{
}

} // verus!
