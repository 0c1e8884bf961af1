//! Readiness of an I/O source and the wakers of its reader and writer.
use crate::local_waker::LocalWaker;
use mio::event::Event;
use vstd::prelude::*;

verus! {

#[verifier::external_type_specification]
#[verifier::external_body]
pub struct ExEvent(Event);

/// What `mio::event::Event::is_readable` answers for an event: whether it reports
/// readable readiness. It reads only the event's own bits.
pub uninterp spec fn event_readable(ev: Event) -> bool;

/// Calls `mio::event::Event::is_readable`; the answer is [`event_readable`] of the
/// event.
#[verifier::external_body]
fn event_is_readable(ev: &Event) -> (r: bool)
    ensures
        r == event_readable(*ev),
{
    ev.is_readable()
}

/// What `mio::event::Event::is_read_closed` answers for an event: whether it reports
/// read-closed readiness. It reads only the event's own bits.
pub uninterp spec fn event_read_closed(ev: Event) -> bool;

/// Calls `mio::event::Event::is_read_closed`; the answer is [`event_read_closed`] of the
/// event.
#[verifier::external_body]
fn event_is_read_closed(ev: &Event) -> (r: bool)
    ensures
        r == event_read_closed(*ev),
{
    ev.is_read_closed()
}

/// What `mio::event::Event::is_writable` answers for an event: whether it reports
/// writable readiness. It reads only the event's own bits.
pub uninterp spec fn event_writable(ev: Event) -> bool;

/// Calls `mio::event::Event::is_writable`; the answer is [`event_writable`] of the
/// event.
#[verifier::external_body]
fn event_is_writable(ev: &Event) -> (r: bool)
    ensures
        r == event_writable(*ev),
{
    ev.is_writable()
}

/// What `mio::event::Event::is_write_closed` answers for an event: whether it reports
/// write-closed readiness. It reads only the event's own bits.
pub uninterp spec fn event_write_closed(ev: Event) -> bool;

/// Calls `mio::event::Event::is_write_closed`; the answer is [`event_write_closed`] of the
/// event.
#[verifier::external_body]
fn event_is_write_closed(ev: &Event) -> (r: bool)
    ensures
        r == event_write_closed(*ev),
{
    ev.is_write_closed()
}

/// What `mio::event::Event::is_aio` answers for an event: whether it reports
/// AIO completion (FreeBSD and other kqueue platforms). It reads only the event's own bits.
pub uninterp spec fn event_aio(ev: Event) -> bool;

/// Calls `mio::event::Event::is_aio`; the answer is [`event_aio`] of the
/// event.
#[verifier::external_body]
fn event_is_aio(ev: &Event) -> (r: bool)
    ensures
        r == event_aio(*ev),
{
    ev.is_aio()
}

/// What `mio::event::Event::is_lio` answers for an event: whether it reports
/// LIO completion (FreeBSD). It reads only the event's own bits.
pub uninterp spec fn event_lio(ev: Event) -> bool;

/// Calls `mio::event::Event::is_lio`; the answer is [`event_lio`] of the
/// event.
#[verifier::external_body]
fn event_is_lio(ev: &Event) -> (r: bool)
    ensures
        r == event_lio(*ev),
{
    ev.is_lio()
}

/// The readiness flags that an event reports.
pub open spec fn readiness_of(ev: Event) -> EventReadiness {
    EventReadiness {
        readable: event_readable(ev),
        read_closed: event_read_closed(ev),
        writable: event_writable(ev),
        write_closed: event_write_closed(ev),
        aio: event_aio(ev),
        lio: event_lio(ev),
    }
}

pub const READABLE: u8 = 0b_01;

pub const READ_CLOSED: u8 = 0b_10;

pub const READ_MASK: u8 = 0b_11;

pub const WRITABLE: u8 = 0b_01_00;

pub const WRITE_CLOSED: u8 = 0b_10_00;

pub const WRITE_MASK: u8 = 0b_11_00;

/// Whether readiness bits let a read proceed (readable or read-closed).
pub open spec fn readable_bits(bits: u8) -> bool {
    bits & READ_MASK != 0
}

/// Whether readiness bits let a write proceed (writable or write-closed).
pub open spec fn writable_bits(bits: u8) -> bool {
    bits & WRITE_MASK != 0
}

/// The readiness flags that one event reports.
#[derive(Clone, Copy)]
pub struct EventReadiness {
    pub readable: bool,
    pub read_closed: bool,
    pub writable: bool,
    pub write_closed: bool,
    /// An AIO operation completed; it makes the source readable.
    pub aio: bool,
    /// An LIO operation completed; it makes the source readable.
    pub lio: bool,
}

/// The bits that an event adds to the readiness.
pub open spec fn event_bits(ev: EventReadiness) -> u8 {
    (if ev.readable || ev.aio || ev.lio { READABLE } else { 0u8 }) | (if ev.read_closed {
        READ_CLOSED
    } else {
        0u8
    }) | (if ev.writable { WRITABLE } else { 0u8 }) | (if ev.write_closed {
        WRITE_CLOSED
    } else {
        0u8
    })
}

/// Dropping read readiness leaves write readiness as it was, and a source
/// whose read half is closed stays readable.
pub proof fn law_clear_read_keeps_others(bits: u8)
    ensures
        writable_bits(bits & !READABLE) == writable_bits(bits),
        readable_bits(bits & !READABLE) == (bits & READ_CLOSED != 0),
{
    assert((bits & !1u8) & 12u8 == bits & 12u8) by (bit_vector);
    assert(((bits & !1u8) & 3u8 != 0) == (bits & 2u8 != 0)) by (bit_vector);
}

/// Dropping write readiness leaves read readiness as it was, and a source
/// whose write half is closed stays writable.
pub proof fn law_clear_write_keeps_others(bits: u8)
    ensures
        readable_bits(bits & !WRITABLE) == readable_bits(bits),
        writable_bits(bits & !WRITABLE) == (bits & WRITE_CLOSED != 0),
{
    assert((bits & !4u8) & 3u8 == bits & 3u8) by (bit_vector);
    assert(((bits & !4u8) & 12u8 != 0) == (bits & 8u8 != 0)) by (bit_vector);
}

/// An event never takes readiness away, and an event that reports a read
/// (or write) side makes the source readable (or writable).
pub proof fn law_event_adds_readiness(bits: u8, ev: EventReadiness)
    ensures
        (bits | event_bits(ev)) & bits == bits,
        ev.readable || ev.aio || ev.lio || ev.read_closed ==> readable_bits(bits | event_bits(ev)),
        ev.writable || ev.write_closed ==> writable_bits(bits | event_bits(ev)),
        !(ev.readable || ev.aio || ev.lio || ev.read_closed) ==> readable_bits(bits | event_bits(ev))
            == readable_bits(bits),
        !(ev.writable || ev.write_closed) ==> writable_bits(bits | event_bits(ev))
            == writable_bits(bits),
{
    let a: u8 = if ev.readable || ev.aio || ev.lio { 1 } else { 0 };
    let b: u8 = if ev.read_closed { 2 } else { 0 };
    let c: u8 = if ev.writable { 4 } else { 0 };
    let d: u8 = if ev.write_closed { 8 } else { 0 };
    let e = ((a | b) | c) | d;
    assert(e == event_bits(ev));
    assert((bits | e) & bits == bits) by (bit_vector);
    assert((a == 1u8 || b == 2u8) && (c == 0u8 || c == 4u8) && (d == 0u8 || d == 8u8)
        ==> (bits | (((a | b) | c) | d)) & 3u8 != 0) by (bit_vector);
    assert((c == 4u8 || d == 8u8) && (a == 0u8 || a == 1u8) && (b == 0u8 || b == 2u8)
        ==> (bits | (((a | b) | c) | d)) & 12u8 != 0) by (bit_vector);
    assert(a == 0u8 && b == 0u8 && (c == 0u8 || c == 4u8) && (d == 0u8 || d == 8u8)
        ==> (((bits | (((a | b) | c) | d)) & 3u8) == (bits & 3u8))) by (bit_vector);
    assert(c == 0u8 && d == 0u8 && (a == 0u8 || a == 1u8) && (b == 0u8 || b == 2u8)
        ==> (((bits | (((a | b) | c) | d)) & 12u8) == (bits & 12u8))) by (bit_vector);
}

/// How an attempt to read or write on a ready source ended.
#[derive(Clone, Copy, PartialEq, Eq, Structural, Debug)]
pub enum IoAttempt {
    /// The operation moved this many bytes.
    Completed(usize),
    /// The operation would have blocked: the readiness was stale.
    WouldBlock,
    /// The operation failed with another error.
    Failed,
}

/// A snapshot of the readiness bits.
pub struct Readiness(u8);

impl Readiness {
    /// The bits of this snapshot.
    pub closed spec fn bits(&self) -> u8 {
        self.0
    }

    /// Readable or read-closed.
    pub fn is_readable(&self) -> (r: bool)
        ensures
            r == readable_bits(self.bits()),
    {
        self.0 & READ_MASK != 0
    }

    /// Writable or write-closed.
    pub fn is_writable(&self) -> (r: bool)
        ensures
            r == writable_bits(self.bits()),
    {
        self.0 & WRITE_MASK != 0
    }
}

/// The readiness of an I/O source together with the wakers of the task
/// reading from it and the task writing to it.
pub struct IoWaker {
    readiness: u8,
    pub reader: LocalWaker,
    pub writer: LocalWaker,
}

impl IoWaker {
    /// The readiness bits currently held.
    pub closed spec fn bits(&self) -> u8 {
        self.readiness
    }

    /// The reader's waker slot.
    pub closed spec fn read_slot(&self) -> LocalWaker {
        self.reader
    }

    /// The writer's waker slot.
    pub closed spec fn write_slot(&self) -> LocalWaker {
        self.writer
    }

    /// No readiness, no waker.
    pub fn new() -> (r: Box<IoWaker>)
        ensures
            r.bits() == 0,
            !r.read_slot().is_registered(),
            !r.write_slot().is_registered(),
    {
        Box::new(IoWaker { readiness: 0, reader: LocalWaker::new(), writer: LocalWaker::new() })
    }

    /// A snapshot of the readiness.
    pub fn readiness(&self) -> (r: Readiness)
        ensures
            r.bits() == self.bits(),
    {
        Readiness(self.readiness)
    }

    /// Drops read readiness after a read would block; `readiness` is the
    /// snapshot the read was attempted with.
    pub fn clear_read(&mut self, readiness: Readiness)
        ensures
            final(self).bits() == readiness.bits() & !READABLE,
            final(self).read_slot() == old(self).read_slot(),
            final(self).write_slot() == old(self).write_slot(),
    {
        self.readiness = readiness.0 & !READABLE;
    }

    /// Drops write readiness after a write would block; `readiness` is the
    /// snapshot the write was attempted with.
    pub fn clear_write(&mut self, readiness: Readiness)
        ensures
            final(self).bits() == readiness.bits() & !WRITABLE,
            final(self).read_slot() == old(self).read_slot(),
            final(self).write_slot() == old(self).write_slot(),
    {
        self.readiness = readiness.0 & !WRITABLE;
    }

    /// Adds the readiness an event reports, then wakes the reader when the
    /// source can be read and the writer when it can be written.
    pub fn apply_event(&mut self, ev: EventReadiness)
        ensures
            final(self).bits() == old(self).bits() | event_bits(ev),
            readable_bits(final(self).bits()) ==> final(self).read_slot().woken_from(old(self).read_slot()),
            !readable_bits(final(self).bits()) ==> final(self).read_slot() == old(self).read_slot(),
            writable_bits(final(self).bits()) ==> final(self).write_slot().woken_from(old(self).write_slot()),
            !writable_bits(final(self).bits()) ==> final(self).write_slot() == old(self).write_slot(),
    {
        let r: u8 = self.readiness;
        let a: u8 = if ev.readable || ev.aio || ev.lio { READABLE } else { 0 };
        let b: u8 = if ev.read_closed { READ_CLOSED } else { 0 };
        let c: u8 = if ev.writable { WRITABLE } else { 0 };
        let d: u8 = if ev.write_closed { WRITE_CLOSED } else { 0 };
        let readiness: u8 = r | a | b | c | d;
        proof {
            assert(((((r | a) | b) | c) | d) == r | (((a | b) | c) | d)) by (bit_vector);
        }
        self.readiness = readiness;
        if readiness & READ_MASK != 0 {
            self.reader.wake();
        }
        if readiness & WRITE_MASK != 0 {
            self.writer.wake();
        }
    }

    /// Records the readiness of an event delivered by the I/O driver and
    /// wakes the tasks that can now make progress.
    pub fn notify(&mut self, ev: &Event)
        ensures
            final(self).bits() == old(self).bits() | event_bits(readiness_of(*ev)),
            readable_bits(final(self).bits()) ==> final(self).read_slot().woken_from(
                old(self).read_slot(),
            ),
            !readable_bits(final(self).bits()) ==> final(self).read_slot() == old(self).read_slot(),
            writable_bits(final(self).bits()) ==> final(self).write_slot().woken_from(
                old(self).write_slot(),
            ),
            !writable_bits(final(self).bits()) ==> final(self).write_slot() == old(
                self,
            ).write_slot(),
    {
        let flags = EventReadiness {
            readable: event_is_readable(ev),
            read_closed: event_is_read_closed(ev),
            writable: event_is_writable(ev),
            write_closed: event_is_write_closed(ev),
            aio: event_is_aio(ev),
            lio: event_is_lio(ev),
        };
        self.apply_event(flags);
    }

    /// Forgets both wakers without waking them.
    pub fn drop_waker(&mut self)
        ensures
            final(self).bits() == old(self).bits(),
            !final(self).read_slot().is_registered(),
            !final(self).write_slot().is_registered(),
            final(self).read_slot().wake_count() == old(self).read_slot().wake_count(),
            final(self).write_slot().wake_count() == old(self).write_slot().wake_count(),
    {
        self.reader.take();
        self.writer.take();
    }

    /// Wakes both the reader and the writer, as when the source goes away.
    pub fn wake_all(&mut self)
        ensures
            final(self).bits() == old(self).bits(),
            final(self).read_slot().woken_from(old(self).read_slot()),
            final(self).write_slot().woken_from(old(self).write_slot()),
    {
        self.reader.wake();
        self.writer.wake();
    }

    /// Records how a read that was attempted on `readiness` ended and says
    /// whether the poll is over. Read readiness is dropped when the read
    /// would block, and also when it filled only part of a buffer of
    /// `buf_len` bytes (the socket buffer is then drained).
    pub fn finish_read(&mut self, readiness: Readiness, attempt: IoAttempt, buf_len: usize) -> (ready:
        bool)
        ensures
            ready == !(attempt is WouldBlock),
            (attempt is WouldBlock || (attempt matches IoAttempt::Completed(n) && 0 < n < buf_len))
                ==> final(self).bits() == readiness.bits() & !READABLE,
            !(attempt is WouldBlock || (attempt matches IoAttempt::Completed(n) && 0 < n < buf_len))
                ==> final(self).bits() == old(self).bits(),
            final(self).read_slot() == old(self).read_slot(),
            final(self).write_slot() == old(self).write_slot(),
    {
        match attempt {
            IoAttempt::Completed(n) => {
                if 0 < n && n < buf_len {
                    self.clear_read(readiness);
                }
                true
            },
            IoAttempt::WouldBlock => {
                self.clear_read(readiness);
                false
            },
            IoAttempt::Failed => true,
        }
    }

    /// Records how a write that was attempted on `readiness` ended and says
    /// whether the poll is over. Write readiness is dropped when the write
    /// would block, and also when it took only part of a buffer of `buf_len`
    /// bytes (the socket buffer is then full).
    pub fn finish_write(&mut self, readiness: Readiness, attempt: IoAttempt, buf_len: usize) -> (ready:
        bool)
        ensures
            ready == !(attempt is WouldBlock),
            (attempt is WouldBlock || (attempt matches IoAttempt::Completed(n) && 0 < n < buf_len))
                ==> final(self).bits() == readiness.bits() & !WRITABLE,
            !(attempt is WouldBlock || (attempt matches IoAttempt::Completed(n) && 0 < n < buf_len))
                ==> final(self).bits() == old(self).bits(),
            final(self).read_slot() == old(self).read_slot(),
            final(self).write_slot() == old(self).write_slot(),
    {
        match attempt {
            IoAttempt::Completed(n) => {
                if 0 < n && n < buf_len {
                    self.clear_write(readiness);
                }
                true
            },
            IoAttempt::WouldBlock => {
                self.clear_write(readiness);
                false
            },
            IoAttempt::Failed => true,
        }
    }

    /// Records how an arbitrary read operation attempted on `readiness`
    /// ended: read readiness is dropped only when it would block, and the
    /// poll is over otherwise.
    pub fn finish_io_read(&mut self, readiness: Readiness, would_block: bool) -> (ready: bool)
        ensures
            ready == !would_block,
            would_block ==> final(self).bits() == readiness.bits() & !READABLE,
            !would_block ==> final(self).bits() == old(self).bits(),
            final(self).read_slot() == old(self).read_slot(),
            final(self).write_slot() == old(self).write_slot(),
    {
        if would_block {
            self.clear_read(readiness);
        }
        !would_block
    }

    /// Records how an arbitrary write operation attempted on `readiness`
    /// ended: write readiness is dropped only when it would block, and the
    /// poll is over otherwise.
    pub fn finish_io_write(&mut self, readiness: Readiness, would_block: bool) -> (ready: bool)
        ensures
            ready == !would_block,
            would_block ==> final(self).bits() == readiness.bits() & !WRITABLE,
            !would_block ==> final(self).bits() == old(self).bits(),
            final(self).read_slot() == old(self).read_slot(),
            final(self).write_slot() == old(self).write_slot(),
    {
        if would_block {
            self.clear_write(readiness);
        }
        !would_block
    }
}

} // verus!
