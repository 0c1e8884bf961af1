//! Worker identities and the choice of the worker that takes a new task.
use crate::task_queue::{
    Counter, clear_flag_step, increase_shared_step, is_full, local_of, notified_of, shared_of, TaskQueue,
};
use vstd::prelude::*;

verus! {

/// The index of a worker thread.
#[derive(Debug, Clone, Copy, PartialEq, Eq, Structural, PartialOrd, Ord, Hash)]
pub struct WorkerId(u8);

impl WorkerId {
    /// The index as a number.
    pub closed spec fn index(self) -> u8 {
        self.0
    }

    /// The identity of worker `index`; the caller makes sure it exists.
    pub fn from_index(index: u8) -> (r: WorkerId)
        ensures
            r.index() == index,
    {
        WorkerId(index)
    }

    /// The index as a `usize`.
    pub fn get(self) -> (r: usize)
        ensures
            r == self.index(),
    {
        self.0 as usize
    }
}

/// The number of tasks a queue holds, local and shared.
pub open spec fn queue_load(q: TaskQueue) -> nat {
    local_of(q.word()) + shared_of(q.word())
}

/// The number of tasks a snapshot counts, local and shared.
pub open spec fn counter_load(c: Counter) -> nat {
    local_of(c.word()) + shared_of(c.word())
}

/// Where the search for the least loaded worker stops: at a worker whose
/// load is at most `min`, at the last worker, or just before the loads start
/// to rise again.
pub open spec fn stops_at(loads: Seq<nat>, min: nat, i: int) -> bool {
    ||| loads[i] <= min
    ||| i + 1 == loads.len()
    ||| loads[i] < loads[i + 1]
}

/// The loads of a sequence of queues.
pub open spec fn loads_of(queues: Seq<TaskQueue>) -> Seq<nat> {
    queues.map_values(|q: TaskQueue| queue_load(q))
}

/// The loads of a sequence of snapshots.
pub open spec fn counter_loads(counters: Seq<Counter>) -> Seq<nat> {
    counters.map_values(|c: Counter| counter_load(c))
}

/// Picks a lightly loaded worker from snapshots of the workers' counters,
/// without looking at them all: the first worker whose load is at most
/// `min`, else the end of the run of non-increasing loads that starts at the
/// first worker.
pub fn find_index_of_lowest(counters: &[Counter], min: u64) -> (r: usize)
    requires
        counters@.len() > 0,
    ensures
        r < counters@.len(),
        stops_at(counter_loads(counters@), min as nat, r as int),
        forall|j: int| 0 <= j < r ==> !stops_at(counter_loads(counters@), min as nat, j),
{
    let ghost loads = counter_loads(counters@);
    let mut x: u64 = counters[0].total();
    let mut x_idx: usize = 0;

    if x <= min {
        return x_idx;
    }
    let mut y_idx: usize = 1;
    while y_idx < counters.len()
        invariant
            1 <= y_idx <= counters@.len(),
            loads == counter_loads(counters@),
            x_idx + 1 == y_idx,
            x == loads[x_idx as int],
            x > min,
            forall|j: int| 0 <= j < x_idx ==> !stops_at(loads, min as nat, j),
        decreases counters@.len() - y_idx,
    {
        let y: u64 = counters[y_idx].total();
        if y <= min {
            return y_idx;
        }
        if x < y {
            return x_idx;
        }
        x = y;
        x_idx = y_idx;
        y_idx = y_idx + 1;
    }
    x_idx
}

/// Up to a chosen worker, every worker is above `min` and the loads do not
/// rise: the choice carries no more tasks than any worker before it.
pub proof fn law_choice_not_heavier_than_earlier(loads: Seq<nat>, min: nat, r: int)
    requires
        0 <= r < loads.len(),
        forall|j: int| 0 <= j < r ==> !stops_at(loads, min, j),
    ensures
        forall|j: int| 0 <= j <= r ==> loads[r] <= #[trigger] loads[j],
        forall|j: int| 0 <= j < r ==> #[trigger] loads[j] > min,
    decreases r,
{
    if r > 0 {
        law_choice_not_heavier_than_earlier(loads, min, r - 1);
        assert(!stops_at(loads, min, r - 1));
    }
}

/// The chosen worker is a local minimum of the load: it is within `min`, or
/// it is the last worker, or the next worker carries more tasks; and no
/// earlier worker is within `min`.
pub proof fn law_choice_is_local_minimum(counters: Seq<Counter>, min: u64, r: int)
    requires
        0 <= r < counters.len(),
        stops_at(counter_loads(counters), min as nat, r),
        forall|j: int| 0 <= j < r ==> !stops_at(counter_loads(counters), min as nat, j),
    ensures
        counter_load(counters[r]) <= min || r + 1 == counters.len() || counter_load(counters[r])
            < counter_load(counters[r + 1]),
        forall|j: int| 0 <= j <= r ==> counter_load(counters[r]) <= #[trigger] counter_load(counters[j]),
        forall|j: int| 0 <= j < r ==> #[trigger] counter_load(counters[j]) > min,
{
    let loads = counter_loads(counters);
    law_choice_not_heavier_than_earlier(loads, min as nat, r);
    assert forall|j: int| 0 <= j <= r implies counter_load(counters[r]) <= #[trigger] counter_load(
        counters[j],
    ) by {
        assert(loads[j] == counter_load(counters[j]));
    }
    assert forall|j: int| 0 <= j < r implies #[trigger] counter_load(counters[j]) > min by {
        assert(loads[j] == counter_load(counters[j]));
    }
}

/// The task bookkeeping of all workers.
pub struct Workers {
    task_queues: Vec<TaskQueue>,
    min_tasks_per_worker: u64,
}

impl Workers {
    /// The task queues, one per worker.
    pub closed spec fn queues(&self) -> Seq<TaskQueue> {
        self.task_queues@
    }

    /// The load under which a worker is taken at once.
    pub closed spec fn min_tasks(&self) -> u64 {
        self.min_tasks_per_worker
    }

    /// `count` workers with empty queues.
    pub fn new(count: u8, min_tasks_per_worker: u64) -> (r: Workers)
        ensures
            r.queues().len() == count,
            forall|i: int| 0 <= i < count ==> #[trigger] r.queues()[i].word() == 0,
            r.min_tasks() == min_tasks_per_worker,
    {
        let mut task_queues: Vec<TaskQueue> = Vec::new();
        let mut i: u8 = 0;
        while i < count
            invariant
                i <= count,
                task_queues@.len() == i,
                forall|j: int| 0 <= j < i ==> #[trigger] task_queues@[j].word() == 0,
            decreases count - i,
        {
            task_queues.push(TaskQueue::new());
            i = i + 1;
        }
        Workers { task_queues, min_tasks_per_worker }
    }

    /// The number of workers.
    pub fn len(&self) -> (r: usize)
        ensures
            r == self.queues().len(),
    {
        self.task_queues.len()
    }

    /// A snapshot of each worker's counters, in worker order.
    pub fn task_counts(&self) -> (r: Vec<Counter>)
        ensures
            r@.len() == self.queues().len(),
            forall|i: int| 0 <= i < r@.len() ==> #[trigger] r@[i].word() == self.queues()[i].word(),
    {
        let mut counters: Vec<Counter> = Vec::new();
        let mut i: usize = 0;
        while i < self.task_queues.len()
            invariant
                i <= self.task_queues@.len(),
                counters@.len() == i,
                forall|j: int| 0 <= j < i ==> #[trigger] counters@[j].word() == self.task_queues@[j].word(),
            decreases self.task_queues@.len() - i,
        {
            counters.push(self.task_queues[i].load());
            i = i + 1;
        }
        counters
    }

    /// The identity of worker `id`, which must exist.
    pub fn id(&self, id: u8) -> (r: WorkerId)
        requires
            id < self.queues().len(),
        ensures
            r.index() == id,
    {
        WorkerId(id)
    }

    /// The identity of worker `id`, or `None` when there is no such worker.
    pub fn checked_id(&self, id: u8) -> (r: Option<WorkerId>)
        ensures
            r matches Some(w) ==> w.index() == id,
            r.is_some() == (id < self.queues().len()),
    {
        if (id as usize) < self.task_queues.len() {
            Some(WorkerId(id))
        } else {
            None
        }
    }

    /// The worker that takes the next spread task; see
    /// [`find_index_of_lowest`].
    pub fn least_loaded_worker(&self) -> (r: WorkerId)
        requires
            0 < self.queues().len() <= 256,
        ensures
            r.index() < self.queues().len(),
            stops_at(loads_of(self.queues()), self.min_tasks() as nat, r.index() as int),
            forall|j: int|
                0 <= j < r.index() ==> !stops_at(loads_of(self.queues()), self.min_tasks() as nat, j),
    {
        let counters = self.task_counts();
        proof {
            assert(counter_loads(counters@) =~= loads_of(self.queues()));
        }
        let idx = find_index_of_lowest(counters.as_slice(), self.min_tasks_per_worker);
        WorkerId(idx as u8)
    }

    /// The task queue of worker `id`.
    pub fn task_queue(&self, id: WorkerId) -> (r: &TaskQueue)
        requires
            id.index() < self.queues().len(),
        ensures
            *r == self.queues()[id.index() as int],
    {
        &self.task_queues[id.get()]
    }

    /// The task queue of worker `id`, to record a change of its counts.
    pub fn task_queue_mut(&mut self, id: WorkerId) -> (r: &mut TaskQueue)
        requires
            id.index() < old(self).queues().len(),
        ensures
            *r == old(self).queues()[id.index() as int],
            final(self).queues() == old(self).queues().update(id.index() as int, *final(r)),
            final(self).min_tasks() == old(self).min_tasks(),
    {
        &mut self.task_queues[id.get()]
    }

    /// Records a task pushed onto the shared queue of worker `id` and marks
    /// the worker as notified. Returns whether the worker must be woken: it
    /// had not been notified since it last accepted a notification.
    pub fn record_shared_task(&mut self, id: WorkerId) -> (wake: bool)
        requires
            id.index() < old(self).queues().len(),
            !is_full(old(self).queues()[id.index() as int].word()),
        ensures
            wake == !notified_of(old(self).queues()[id.index() as int].word()),
            final(self).queues().len() == old(self).queues().len(),
            final(self).queues()[id.index() as int].word() == increase_shared_step(
                old(self).queues()[id.index() as int].word(),
            ),
            forall|j: int|
                0 <= j < old(self).queues().len() && j != id.index() ==> #[trigger] final(self).queues()[j] == old(self).queues()[j],
            final(self).min_tasks() == old(self).min_tasks(),
    {
        let q = self.task_queue_mut(id);
        let state = q.increase_shared_and_mark_as_notified();
        !state.is_notified()
    }

    /// The worker `id` could not be woken: its notified flag is cleared so
    /// that the next sender tries again.
    pub fn wake_failed(&mut self, id: WorkerId)
        requires
            id.index() < old(self).queues().len(),
        ensures
            final(self).queues().len() == old(self).queues().len(),
            final(self).queues()[id.index() as int].word() == clear_flag_step(
                old(self).queues()[id.index() as int].word(),
            ),
            forall|j: int|
                0 <= j < old(self).queues().len() && j != id.index() ==> #[trigger] final(self).queues()[j] == old(self).queues()[j],
            final(self).min_tasks() == old(self).min_tasks(),
    {
        let q = self.task_queue_mut(id);
        q.clear_notified_flag();
    }
}

} // verus!
