//! A packed pair of task counters held in one 64-bit word.
//!
//! The low 32 bits count tasks waiting in the shared queue, the high 32 bits
//! count tasks in the local queue.
use vstd::prelude::*;

verus! {

const SHARED_COUNTER_BIT_SIZE: u64 = 32;

const SHARED_COUNTER_MASK: u64 = 0xffff_ffff;

const SHARED_COUNTER: u64 = 1;

const LOCAL_COUNTER: u64 = 0x1_0000_0000;

/// 2^32: the weight of one local task in the word.
pub open spec fn local_unit() -> int {
    0x1_0000_0000
}

/// Adds `d` to the word, wrapping modulo 2^64 as an atomic `fetch_add` does.
pub open spec fn wrap_add(w: u64, d: int) -> u64 {
    if w + d > u64::MAX {
        (w + d - 0x1_0000_0000_0000_0000) as u64
    } else {
        (w + d) as u64
    }
}

/// Number of local tasks recorded in a word.
pub open spec fn local_of(w: u64) -> nat {
    (w as nat) / 0x1_0000_0000
}

/// Number of shared tasks recorded in a word.
pub open spec fn shared_of(w: u64) -> nat {
    (w as nat) % 0x1_0000_0000
}

/// The word that records `local` local tasks and `shared` shared tasks.
pub open spec fn word_of(local: nat, shared: nat) -> int {
    local * local_unit() + shared
}

/// Word after one more local task.
pub open spec fn increase_local_step(w: u64) -> u64 {
    wrap_add(w, local_unit())
}

/// Word after one local task has finished.
pub open spec fn decrease_local_step(w: u64) -> u64 {
    (w - local_unit()) as u64
}

/// Word after one more shared task.
pub open spec fn increase_shared_step(w: u64) -> u64 {
    wrap_add(w, 1)
}

/// Word after `n` shared tasks are moved to the local queue.
pub open spec fn move_shared_to_local_step(w: u64, n: nat) -> u64 {
    wrap_add(w, n * local_unit() - n)
}

/// A word is made of its local count and its shared count.
pub proof fn lemma_word_parts(w: u64)
    ensures
        w == word_of(local_of(w), shared_of(w)),
        local_of(w) < local_unit(),
        shared_of(w) < local_unit(),
{
    assert(w == (w / 0x1_0000_0000) * 0x1_0000_0000 + w % 0x1_0000_0000) by (bit_vector);
    assert(w / 0x1_0000_0000 < 0x1_0000_0000) by (bit_vector);
    assert(w % 0x1_0000_0000 < 0x1_0000_0000) by (bit_vector);
}

proof fn lemma_word_unique(w: u64, local: nat, shared: nat)
    requires
        w == word_of(local, shared),
        shared < local_unit(),
    ensures
        local_of(w) == local,
        shared_of(w) == shared,
{
    vstd::arithmetic::div_mod::lemma_fundamental_div_mod_converse(
        w as int,
        local_unit(),
        local as int,
        shared as int,
    );
}

proof fn lemma_word_split(w: u64)
    ensures
        w >> 32u64 == w / 0x1_0000_0000,
        w & 0xffff_ffffu64 == w % 0x1_0000_0000,
{
    assert(w >> 32u64 == w / 0x1_0000_0000) by (bit_vector);
    assert(w & 0xffff_ffffu64 == w % 0x1_0000_0000) by (bit_vector);
}

proof fn lemma_shift_is_mul(s: u64)
    requires
        s < 0x1_0000_0000,
    ensures
        s << 32u64 == s * 0x1_0000_0000,
{
    assert(s < 0x1_0000_0000 ==> s << 32u64 == s * 0x1_0000_0000) by (bit_vector);
}

/// Recording a local task and then its completion leaves the counters as
/// they were.
pub proof fn law_local_round_trip(w: u64)
    requires
        local_of(w) + 1 < local_unit(),
    ensures
        decrease_local_step(increase_local_step(w)) == w,
{
}

/// Moving every task counted as shared to the local count empties the shared
/// count and keeps the total.
pub proof fn law_move_all_shared_keeps_total(w: u64)
    requires
        local_of(w) + shared_of(w) < local_unit(),
    ensures
        shared_of(move_shared_to_local_step(w, shared_of(w))) == 0,
        local_of(move_shared_to_local_step(w, shared_of(w))) == local_of(w) + shared_of(w),
{
    let n = shared_of(w);
    lemma_word_parts(w);
    let w2 = move_shared_to_local_step(w, n);
    lemma_word_unique(w2, local_of(w) + n, 0);
}

/// A shared task recorded and then moved to the local queue counts as one
/// local task, with the shared count back where it was.
pub proof fn law_shared_then_move_one(w: u64)
    requires
        local_of(w) + 1 < local_unit(),
        shared_of(w) + 1 < local_unit(),
    ensures
        local_of(move_shared_to_local_step(increase_shared_step(w), 1)) == local_of(w) + 1,
        shared_of(move_shared_to_local_step(increase_shared_step(w), 1)) == shared_of(w),
{
    lemma_word_parts(w);
    let w2 = move_shared_to_local_step(increase_shared_step(w), 1);
    lemma_word_unique(w2, local_of(w) + 1, shared_of(w));
}

/// A snapshot of the packed counters.
#[derive(Clone, Copy)]
pub struct Counter(u64);

impl Counter {
    /// The raw word of this snapshot.
    pub closed spec fn word(self) -> u64 {
        self.0
    }

    /// Number of tasks in the local queue.
    pub fn local(self) -> (r: u64)
        ensures
            r == local_of(self.word()),
    {
        proof {
            lemma_word_split(self.0);
        }
        self.0 >> SHARED_COUNTER_BIT_SIZE
    }

    /// Number of tasks waiting in the shared queue.
    pub fn shared(self) -> (r: u64)
        ensures
            r == shared_of(self.word()),
    {
        proof {
            lemma_word_split(self.0);
        }
        self.0 & SHARED_COUNTER_MASK
    }

    /// Whether the shared queue holds a task.
    pub fn shared_queue_has_data(self) -> (r: bool)
        ensures
            r == (shared_of(self.word()) > 0),
    {
        self.shared() > 0
    }

    /// Number of tasks in both queues.
    pub fn total(self) -> (r: u64)
        ensures
            r == local_of(self.word()) + shared_of(self.word()),
    {
        let l = self.local();
        let s = self.shared();
        proof {
            lemma_word_parts(self.0);
        }
        l + s
    }
}

/// The counters of one worker.
pub struct TaskCounter {
    counter: u64,
}

impl TaskCounter {
    /// The packed word currently held.
    pub closed spec fn word(&self) -> u64 {
        self.counter
    }

    /// Counters with no task at all.
    pub fn new() -> (r: TaskCounter)
        ensures
            r.word() == 0,
            local_of(r.word()) == 0,
            shared_of(r.word()) == 0,
    {
        TaskCounter { counter: 0 }
    }

    /// Records one more local task; returns the counters as they were.
    pub fn increase_local(&mut self) -> (old_counter: Counter)
        ensures
            old_counter.word() == old(self).word(),
            final(self).word() == increase_local_step(old(self).word()),
            local_of(old(self).word()) + 1 < local_unit() ==> local_of(final(self).word())
                == local_of(old(self).word()) + 1,
            shared_of(final(self).word()) == shared_of(old(self).word()),
    {
        let old_counter = Counter(self.counter);
        self.counter = self.counter.wrapping_add(LOCAL_COUNTER);
        proof {
            let w = old_counter.0;
            lemma_word_parts(w);
            if local_of(w) + 1 < local_unit() {
                lemma_word_unique(self.counter, local_of(w) + 1, shared_of(w));
            } else {
                lemma_word_unique(self.counter, 0, shared_of(w));
            }
        }
        old_counter
    }

    /// Records that one local task is done; returns the counters as they were.
    pub fn decrease_local(&mut self) -> (old_counter: Counter)
        requires
            local_of(old(self).word()) > 0,
        ensures
            old_counter.word() == old(self).word(),
            final(self).word() == decrease_local_step(old(self).word()),
            local_of(final(self).word()) == local_of(old(self).word()) - 1,
            shared_of(final(self).word()) == shared_of(old(self).word()),
    {
        let old_counter = Counter(self.counter);
        proof {
            lemma_word_parts(self.counter);
        }
        self.counter = self.counter - LOCAL_COUNTER;
        proof {
            let w = old_counter.0;
            lemma_word_unique(self.counter, (local_of(w) - 1) as nat, shared_of(w));
        }
        old_counter
    }

    /// Records one more task in the shared queue.
    pub fn increase_shared(&mut self)
        ensures
            final(self).word() == increase_shared_step(old(self).word()),
            shared_of(old(self).word()) + 1 < local_unit() ==> {
                &&& shared_of(final(self).word()) == shared_of(old(self).word()) + 1
                &&& local_of(final(self).word()) == local_of(old(self).word())
            },
    {
        let ghost w = self.counter;
        self.counter = self.counter.wrapping_add(SHARED_COUNTER);
        proof {
            lemma_word_parts(w);
            if shared_of(w) + 1 < local_unit() {
                lemma_word_unique(self.counter, local_of(w), shared_of(w) + 1);
            }
        }
    }

    /// Moves the shared tasks counted in `n` over to the local count.
    pub fn move_shared_to_local(&mut self, n: Counter)
        ensures
            final(self).word() == move_shared_to_local_step(
                old(self).word(),
                shared_of(n.word()),
            ),
            shared_of(n.word()) <= shared_of(old(self).word()) && local_of(old(self).word())
                + shared_of(n.word()) < local_unit() ==> {
                &&& shared_of(final(self).word()) == shared_of(old(self).word()) - shared_of(
                    n.word(),
                )
                &&& local_of(final(self).word()) == local_of(old(self).word()) + shared_of(
                    n.word(),
                )
            },
    {
        let shared = n.shared();
        proof {
            lemma_shift_is_mul(shared);
        }
        let delta = (shared << SHARED_COUNTER_BIT_SIZE) - shared;
        let ghost w = self.counter;
        self.counter = self.counter.wrapping_add(delta);
        proof {
            lemma_word_parts(w);
            if shared_of(n.word()) <= shared_of(w) && local_of(w) + shared_of(n.word())
                < local_unit() {
                lemma_word_unique(
                    self.counter,
                    local_of(w) + shared_of(n.word()),
                    (shared_of(w) - shared_of(n.word())) as nat,
                );
            }
        }
    }

    /// The current counters.
    pub fn load(&self) -> (r: Counter)
        ensures
            r.word() == self.word(),
    {
        Counter(self.counter)
    }
}

} // verus!
