//! The task bookkeeping of one worker: local and shared task counts and a
//! "notified" flag, packed in one 64-bit word.
//!
//! ## Bit layout
//!
//! ```md
//! 63                           33     31                    0
//! ┌─────────────────────────────┬─────┬─────────────────────┐
//! │        LOCAL_COUNTER        │  N  │    SHARED_COUNTER   │
//! └─────────────────────────────┴─────┴─────────────────────┘
//!
//! SHARED_COUNTER → bits 0..=31
//! NOTIFIED_FLAG  → bit  32
//! LOCAL_COUNTER  → bits 33..=63
//! ```
use vstd::prelude::*;

verus! {

const LOCAL_COUNTER_BIT_SIZE: u64 = 33;

const SHARED_COUNTER_MASK: u64 = 0xffff_ffff;

/// One shared task, as added to the word.
pub const SHARED_COUNTER_ONE: u64 = 1;

/// The notified flag.
pub const NOTIFIED_FLAG: u64 = 0x1_0000_0000;

/// One local task, as added to the word.
pub const LOCAL_COUNTER_ONE: u64 = 0x2_0000_0000;

/// 2^31: the bound on the local count, which holds the top 31 bits.
pub open spec fn local_limit() -> int {
    0x8000_0000
}

/// 2^33: the weight of one local task in the word.
pub open spec fn local_unit() -> int {
    0x2_0000_0000
}

/// 2^32: the weight of the notified flag in the word; also the bound on the
/// shared count.
pub open spec fn flag_unit() -> int {
    0x1_0000_0000
}

/// Adds `d` to the word, wrapping modulo 2^64 as an atomic `fetch_add` does.
pub open spec fn wrap_add(w: u64, d: int) -> u64 {
    if w + d > u64::MAX {
        (w + d - 0x1_0000_0000_0000_0000) as u64
    } else if w + d < 0 {
        (w + d + 0x1_0000_0000_0000_0000) as u64
    } else {
        (w + d) as u64
    }
}

/// Number of local tasks recorded in a word.
pub open spec fn local_of(w: u64) -> nat {
    (w as nat) / 0x2_0000_0000
}

/// Number of shared tasks recorded in a word.
pub open spec fn shared_of(w: u64) -> nat {
    (w as nat) % 0x1_0000_0000
}

/// Whether the notified flag is set in a word.
pub open spec fn notified_of(w: u64) -> bool {
    ((w as nat) / 0x1_0000_0000) % 2 == 1
}

/// The word that records the given counts and flag.
pub open spec fn word_of(local: nat, notified: bool, shared: nat) -> int {
    local * local_unit() + (if notified { flag_unit() } else { 0 }) + shared
}

/// Word after one more local task.
pub open spec fn increase_local_step(w: u64) -> u64 {
    wrap_add(w, local_unit())
}

/// Word after one local task has finished.
pub open spec fn decrease_local_step(w: u64) -> u64 {
    (w - local_unit()) as u64
}

/// Word with the notified flag cleared.
pub open spec fn clear_flag_step(w: u64) -> u64 {
    if notified_of(w) {
        (w - flag_unit()) as u64
    } else {
        w
    }
}

/// Word after a notification is accepted: the flag is cleared only when
/// the shared queue is empty.
pub open spec fn accept_notify_step(w: u64) -> u64 {
    if shared_of(w) == 0 {
        clear_flag_step(w)
    } else {
        w
    }
}

/// Word after a task is added to the shared queue and the flag is set.
pub open spec fn increase_shared_step(w: u64) -> u64 {
    (if notified_of(w) {
        w + 1
    } else {
        w + flag_unit() + 1
    }) as u64
}

/// What is added to the word to move `n` shared tasks to the local count,
/// taken modulo 2^64 as the shift that computes it drops the high bits.
pub open spec fn move_delta_of(n: nat) -> u64 {
    ((n * local_unit() - n) % 0x1_0000_0000_0000_0000) as u64
}

/// Word after `n` shared tasks are moved to the local queue.
pub open spec fn move_shared_to_local_step(w: u64, n: nat) -> u64 {
    wrap_add(w, move_delta_of(n) as int)
}

/// A word whose shared count and local count are both at their maximum: the
/// only words on which adding a shared task would overflow.
pub open spec fn is_full(w: u64) -> bool {
    local_of(w) == local_limit() - 1 && shared_of(w) == flag_unit() - 1
}

/// A word is made of its local count, its flag and its shared count.
pub proof fn lemma_word_parts(w: u64)
    ensures
        w == word_of(local_of(w), notified_of(w), shared_of(w)),
        local_of(w) < local_limit(),
        shared_of(w) < flag_unit(),
{
    assert(w == (w / 0x2_0000_0000) * 0x2_0000_0000 + ((w / 0x1_0000_0000) % 2) * 0x1_0000_0000 + w
        % 0x1_0000_0000) by (bit_vector);
    assert(w / 0x2_0000_0000 < 0x2_0000_0000) by (bit_vector);
    assert(w % 0x1_0000_0000 < 0x1_0000_0000) by (bit_vector);
    assert((w / 0x1_0000_0000) % 2 < 2) by (bit_vector);
}

proof fn lemma_bits(w: u64)
    ensures
        w >> 33u64 == w / 0x2_0000_0000,
        w & 0xffff_ffffu64 == w % 0x1_0000_0000,
        (w & 0x1_0000_0000u64 == 0x1_0000_0000u64) == ((w / 0x1_0000_0000) % 2 == 1),
        (w / 0x1_0000_0000) % 2 == 1 ==> w & !0x1_0000_0000u64 == w - 0x1_0000_0000,
        (w / 0x1_0000_0000) % 2 != 1 ==> w & !0x1_0000_0000u64 == w,
        (w / 0x1_0000_0000) % 2 == 1 ==> w | 0x1_0000_0000u64 == w,
        (w / 0x1_0000_0000) % 2 != 1 ==> w | 0x1_0000_0000u64 == w + 0x1_0000_0000,
{
    assert(w >> 33u64 == w / 0x2_0000_0000) by (bit_vector);
    assert(w & 0xffff_ffffu64 == w % 0x1_0000_0000) by (bit_vector);
    assert((w & 0x1_0000_0000u64 == 0x1_0000_0000u64) == ((w / 0x1_0000_0000) % 2 == 1))
        by (bit_vector);
    assert((w / 0x1_0000_0000) % 2 == 1 ==> w & !0x1_0000_0000u64 == w - 0x1_0000_0000)
        by (bit_vector);
    assert((w / 0x1_0000_0000) % 2 != 1 ==> w & !0x1_0000_0000u64 == w) by (bit_vector);
    assert((w / 0x1_0000_0000) % 2 == 1 ==> w | 0x1_0000_0000u64 == w) by (bit_vector);
    assert((w / 0x1_0000_0000) % 2 != 1 ==> w | 0x1_0000_0000u64 == w + 0x1_0000_0000)
        by (bit_vector);
}

proof fn lemma_move_delta(s: u64)
    requires
        s < 0x1_0000_0000,
        s != 0x8000_0000,
    ensures
        s << 33u64 >= s,
        ((s << 33u64) - s) as u64 == move_delta_of(s as nat),
        s < 0x8000_0000 ==> move_delta_of(s as nat) == s * local_unit() - s,
{
    assert(s < 0x1_0000_0000 && s != 0x8000_0000 ==> s << 33u64 >= s) by (bit_vector);
    assert(s < 0x1_0000_0000 && s != 0x8000_0000 ==> ((s << 33u64) - s) as u64 == ((s
        * 0x2_0000_0000 - s) % 0x1_0000_0000_0000_0000) as u64) by (bit_vector);
    if s < 0x8000_0000 {
        vstd::arithmetic::div_mod::lemma_small_mod(
            (s * 0x2_0000_0000 - s) as nat,
            0x1_0000_0000_0000_0000,
        );
    }
}

/// Recording a local task and then its completion leaves the counters as
/// they were.
pub proof fn law_local_round_trip(w: u64)
    requires
        local_of(w) + 1 < local_limit(),
    ensures
        decrease_local_step(increase_local_step(w)) == w,
{
}

/// Moving every task counted as shared to the local queue empties the shared
/// count, keeps the flag and keeps the total.
pub proof fn law_move_all_shared_keeps_total(w: u64)
    requires
        local_of(w) + shared_of(w) < local_limit(),
    ensures
        shared_of(move_shared_to_local_step(w, shared_of(w))) == 0,
        local_of(move_shared_to_local_step(w, shared_of(w))) == local_of(w) + shared_of(w),
        notified_of(move_shared_to_local_step(w, shared_of(w))) == notified_of(w),
{
    lemma_word_parts(w);
    let n = shared_of(w);
    lemma_move_delta(n as u64);
    let w2 = move_shared_to_local_step(w, n);
    assert(w2 == word_of(local_of(w) + n, notified_of(w), 0));
    lemma_word_parts(w2);
    lemma_word_unique(w2, (local_of(w) + n) as nat, notified_of(w), 0);
}

proof fn lemma_word_unique(w: u64, local: nat, notified: bool, shared: nat)
    requires
        w == word_of(local, notified, shared),
        shared < flag_unit(),
    ensures
        local_of(w) == local,
        notified_of(w) == notified,
        shared_of(w) == shared,
{
    let f: int = if notified { 1 } else { 0 };
    assert(w as int == (2 * local + f) * flag_unit() + shared);
    vstd::arithmetic::div_mod::lemma_fundamental_div_mod_converse(
        w as int,
        flag_unit(),
        2 * local + f,
        shared as int,
    );
    vstd::arithmetic::div_mod::lemma_fundamental_div_mod_converse(
        w as int,
        local_unit(),
        local as int,
        f * flag_unit() + shared,
    );
    vstd::arithmetic::div_mod::lemma_fundamental_div_mod_converse(
        2 * local + f,
        2,
        local as int,
        f,
    );
}

proof fn lemma_increase_shared_fits(w: u64)
    requires
        !is_full(w),
    ensures
        (w | 0x1_0000_0000u64) + 1 <= u64::MAX,
        ((w | 0x1_0000_0000u64) + 1) as u64 == increase_shared_step(w),
{
    lemma_bits(w);
    lemma_word_parts(w);
}

/// After a task is added to the shared queue the worker counts as notified,
/// so that a second sender sees the flag already set and does not wake the
/// worker again.
pub proof fn law_shared_task_marks_notified(w: u64)
    requires
        shared_of(w) + 1 < flag_unit(),
    ensures
        notified_of(increase_shared_step(w)),
        shared_of(increase_shared_step(w)) == shared_of(w) + 1,
        local_of(increase_shared_step(w)) == local_of(w),
{
    lemma_word_parts(w);
    let w2 = increase_shared_step(w);
    lemma_word_unique(w2, local_of(w), true, shared_of(w) + 1);
}

/// A notification is never accepted while shared tasks are waiting: the
/// counters stay as they are.
pub proof fn law_no_accept_while_shared_pending(w: u64)
    requires
        shared_of(w) > 0,
    ensures
        accept_notify_step(w) == w,
{
}

/// Accepting a notification on an empty shared queue clears the flag and
/// keeps both counts; accepting again changes nothing.
pub proof fn law_accept_clears_once(w: u64)
    requires
        shared_of(w) == 0,
    ensures
        !notified_of(accept_notify_step(w)),
        local_of(accept_notify_step(w)) == local_of(w),
        shared_of(accept_notify_step(w)) == 0,
        accept_notify_step(accept_notify_step(w)) == accept_notify_step(w),
{
    lemma_word_parts(w);
    if notified_of(w) {
        lemma_word_unique(accept_notify_step(w), local_of(w), false, 0);
    }
}

/// The wake-up protocol between senders and a worker. Once the worker has
/// accepted its notification on an empty shared queue, the first sender
/// finds the flag clear (and wakes the worker), the next one finds it set
/// (and does not); once the worker has moved the shared tasks over and
/// accepted again, the flag is clear for the next sender.
pub proof fn law_wake_once_per_acceptance(w: u64)
    requires
        shared_of(w) == 0,
        local_of(w) + 2 < local_limit(),
    ensures
        ({
            let w1 = accept_notify_step(w);
            let w2 = increase_shared_step(w1);
            let w3 = increase_shared_step(w2);
            let w4 = move_shared_to_local_step(w3, shared_of(w3));
            let w5 = accept_notify_step(w4);
            &&& !notified_of(w1)
            &&& notified_of(w2)
            &&& shared_of(w3) == 2
            &&& shared_of(w4) == 0
            &&& !notified_of(w5)
            &&& local_of(w5) == local_of(w) + 2
        }),
{
    let w1 = accept_notify_step(w);
    law_accept_clears_once(w);
    law_shared_task_marks_notified(w1);
    let w2 = increase_shared_step(w1);
    law_shared_task_marks_notified(w2);
    let w3 = increase_shared_step(w2);
    law_move_all_shared_keeps_total(w3);
    let w4 = move_shared_to_local_step(w3, shared_of(w3));
    law_accept_clears_once(w4);
}

/// A snapshot of the packed counters.
#[derive(Clone, Copy)]
pub struct Counter(u64);

impl Counter {
    /// The raw word of this snapshot.
    pub closed spec fn word(self) -> u64 {
        self.0
    }

    /// Number of tasks in the local queue.
    pub fn local(self) -> (r: u64)
        ensures
            r == local_of(self.word()),
    {
        proof {
            lemma_bits(self.0);
        }
        self.0 >> LOCAL_COUNTER_BIT_SIZE
    }

    /// Number of tasks waiting in the shared queue.
    pub fn shared(self) -> (r: u64)
        ensures
            r == shared_of(self.word()),
    {
        proof {
            lemma_bits(self.0);
        }
        self.0 & SHARED_COUNTER_MASK
    }

    /// Whether the shared queue holds a task.
    pub fn shared_queue_has_data(self) -> (r: bool)
        ensures
            r == (shared_of(self.word()) > 0),
    {
        self.shared() > 0
    }

    /// Number of tasks in both queues.
    pub fn total(self) -> (r: u64)
        ensures
            r == local_of(self.word()) + shared_of(self.word()),
    {
        let l = self.local();
        let s = self.shared();
        proof {
            lemma_word_parts(self.0);
        }
        l + s
    }

    /// Whether the worker has been notified of new shared tasks.
    pub fn is_notified(self) -> (r: bool)
        ensures
            r == notified_of(self.word()),
    {
        proof {
            lemma_bits(self.0);
        }
        (self.0 & NOTIFIED_FLAG) == NOTIFIED_FLAG
    }

    /// The snapshot held in a raw word.
    pub fn from_bits(bits: u64) -> (r: Counter)
        ensures
            r.word() == bits,
    {
        Counter(bits)
    }

    /// The raw word of this snapshot.
    pub fn bits(self) -> (r: u64)
        ensures
            r == self.word(),
    {
        self.0
    }

    /// The counters once a notification is accepted, when that changes them:
    /// `None` when the shared queue holds a task or the flag is clear.
    pub fn accepted(self) -> (r: Option<Counter>)
        ensures
            r is None <==> (shared_of(self.word()) != 0 || !notified_of(self.word())),
            r matches Some(c) ==> {
                &&& c.word() == accept_notify_step(self.word())
                &&& local_of(c.word()) == local_of(self.word())
                &&& shared_of(c.word()) == 0
                &&& !notified_of(c.word())
            },
    {
        proof {
            lemma_bits(self.0);
        }
        if self.shared() != 0 {
            return None;
        }
        if !self.is_notified() {
            return None;
        }
        let c = Counter(self.0 & !NOTIFIED_FLAG);
        proof {
            lemma_word_parts(self.0);
            lemma_word_unique(c.0, local_of(self.0), false, shared_of(self.0));
        }
        Some(c)
    }

    /// The counters with one more shared task and the flag set.
    pub fn with_shared_task(self) -> (r: Counter)
        requires
            !is_full(self.word()),
        ensures
            r.word() == increase_shared_step(self.word()),
            shared_of(self.word()) + 1 < flag_unit() ==> {
                &&& shared_of(r.word()) == shared_of(self.word()) + 1
                &&& local_of(r.word()) == local_of(self.word())
                &&& notified_of(r.word())
            },
    {
        let curr = self.0;
        proof {
            lemma_increase_shared_fits(curr);
            if shared_of(curr) + 1 < flag_unit() {
                law_shared_task_marks_notified(curr);
            }
        }
        Counter((curr | NOTIFIED_FLAG) + SHARED_COUNTER_ONE)
    }

    /// What to add to a word to move the shared tasks counted here to the
    /// local count.
    /// The shift drops the high bits of a shared count of 2^31 or more, and
    /// with exactly 2^31 the subtraction underflows.
    pub fn move_delta(self) -> (r: u64)
        requires
            shared_of(self.word()) != 0x8000_0000,
        ensures
            r == move_delta_of(shared_of(self.word())),
    {
        let shared = self.shared();
        proof {
            lemma_word_parts(self.0);
            lemma_move_delta(shared);
        }
        (shared << LOCAL_COUNTER_BIT_SIZE) - shared
    }
}

/// The task bookkeeping of one worker.
pub struct TaskQueue {
    counter: u64,
}

impl TaskQueue {
    /// The packed word currently held.
    pub closed spec fn word(&self) -> u64 {
        self.counter
    }

    /// No task, flag clear.
    pub fn new() -> (r: TaskQueue)
        ensures
            r.word() == 0,
            local_of(r.word()) == 0,
            shared_of(r.word()) == 0,
            !notified_of(r.word()),
    {
        TaskQueue { counter: 0 }
    }

    /// Clears the notified flag, but only when the shared queue is empty.
    /// Returns the counters as they were.
    pub fn accept_notify_once_if_shared_queue_is_empty(&mut self) -> (old_counter: Counter)
        ensures
            old_counter.word() == old(self).word(),
            final(self).word() == accept_notify_step(old(self).word()),
            local_of(final(self).word()) == local_of(old(self).word()),
            shared_of(final(self).word()) == shared_of(old(self).word()),
            notified_of(final(self).word()) == (notified_of(old(self).word()) && shared_of(
                old(self).word(),
            ) != 0),
    {
        let curr = Counter(self.counter);
        match curr.accepted() {
            Some(next) => {
                self.counter = next.0;
            },
            None => {},
        }
        curr
    }

    /// Records one more local task; returns the counters as they were.
    pub fn increase_local(&mut self) -> (old_counter: Counter)
        ensures
            old_counter.word() == old(self).word(),
            final(self).word() == increase_local_step(old(self).word()),
            local_of(old(self).word()) + 1 < local_limit() ==> local_of(final(self).word())
                == local_of(old(self).word()) + 1,
            shared_of(final(self).word()) == shared_of(old(self).word()),
            notified_of(final(self).word()) == notified_of(old(self).word()),
    {
        let old_counter = Counter(self.counter);
        self.counter = self.counter.wrapping_add(LOCAL_COUNTER_ONE);
        proof {
            let w = old_counter.0;
            lemma_word_parts(w);
            if local_of(w) + 1 < local_limit() {
                lemma_word_unique(self.counter, local_of(w) + 1, notified_of(w), shared_of(w));
            } else {
                lemma_word_unique(self.counter, 0, notified_of(w), shared_of(w));
            }
        }
        old_counter
    }

    /// Records that one local task is done; returns the counters as they were.
    pub fn decrease_local(&mut self) -> (old_counter: Counter)
        requires
            local_of(old(self).word()) > 0,
        ensures
            old_counter.word() == old(self).word(),
            final(self).word() == decrease_local_step(old(self).word()),
            local_of(final(self).word()) == local_of(old(self).word()) - 1,
            shared_of(final(self).word()) == shared_of(old(self).word()),
            notified_of(final(self).word()) == notified_of(old(self).word()),
    {
        let old_counter = Counter(self.counter);
        proof {
            lemma_word_parts(self.counter);
        }
        self.counter = self.counter - LOCAL_COUNTER_ONE;
        proof {
            let w = old_counter.0;
            lemma_word_unique(
                self.counter,
                (local_of(w) - 1) as nat,
                notified_of(w),
                shared_of(w),
            );
        }
        old_counter
    }

    /// Clears the notified flag.
    pub fn clear_notified_flag(&mut self)
        ensures
            final(self).word() == clear_flag_step(old(self).word()),
            local_of(final(self).word()) == local_of(old(self).word()),
            shared_of(final(self).word()) == shared_of(old(self).word()),
            !notified_of(final(self).word()),
    {
        let ghost w = self.counter;
        proof {
            lemma_bits(self.counter);
            lemma_word_parts(w);
        }
        self.counter = self.counter & !NOTIFIED_FLAG;
        proof {
            lemma_word_unique(self.counter, local_of(w), false, shared_of(w));
        }
    }

    /// Records one more task in the shared queue and sets the notified flag.
    /// Returns the counters as they were, so that the caller learns whether
    /// the worker had already been notified.
    pub fn increase_shared_and_mark_as_notified(&mut self) -> (old_counter: Counter)
        requires
            !is_full(old(self).word()),
        ensures
            old_counter.word() == old(self).word(),
            final(self).word() == increase_shared_step(old(self).word()),
            shared_of(old(self).word()) + 1 < flag_unit() ==> {
                &&& shared_of(final(self).word()) == shared_of(old(self).word()) + 1
                &&& local_of(final(self).word()) == local_of(old(self).word())
                &&& notified_of(final(self).word())
            },
    {
        let curr = Counter(self.counter);
        self.counter = curr.with_shared_task().0;
        curr
    }

    /// Same as [`TaskQueue::increase_shared_and_mark_as_notified`].
    pub fn increase_shared(&mut self) -> (old_counter: Counter)
        requires
            !is_full(old(self).word()),
        ensures
            old_counter.word() == old(self).word(),
            final(self).word() == increase_shared_step(old(self).word()),
    {
        self.increase_shared_and_mark_as_notified()
    }

    /// Moves the shared tasks counted in `n` over to the local count.
    pub fn move_shared_to_local(&mut self, n: Counter)
        requires
            shared_of(n.word()) != 0x8000_0000,
        ensures
            final(self).word() == move_shared_to_local_step(
                old(self).word(),
                shared_of(n.word()),
            ),
            shared_of(n.word()) <= shared_of(old(self).word()) && local_of(old(self).word())
                + shared_of(n.word()) < local_limit() ==> {
                &&& shared_of(final(self).word()) == shared_of(old(self).word()) - shared_of(
                    n.word(),
                )
                &&& local_of(final(self).word()) == local_of(old(self).word()) + shared_of(
                    n.word(),
                )
                &&& notified_of(final(self).word()) == notified_of(old(self).word())
            },
    {
        let delta = n.move_delta();
        let ghost w = self.counter;
        self.counter = self.counter.wrapping_add(delta);
        proof {
            lemma_word_parts(w);
            if shared_of(n.word()) <= shared_of(w) && local_of(w) + shared_of(n.word())
                < local_limit() {
                lemma_move_delta(shared_of(n.word()) as u64);
                lemma_word_unique(
                    self.counter,
                    local_of(w) + shared_of(n.word()),
                    notified_of(w),
                    (shared_of(w) - shared_of(n.word())) as nat,
                );
            }
        }
    }

    /// The current counters.
    pub fn load(&self) -> (r: Counter)
        ensures
            r.word() == self.word(),
    {
        Counter(self.counter)
    }
}

} // verus!
