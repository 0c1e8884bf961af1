//! Configuration of a runtime before it starts.
use crate::metrics::{Measurement, NoMeasurement};
use std::time::Duration;
use vstd::prelude::*;
use vstd::string::StringExecFns;

verus! {

/// The character of decimal digit `d`.
pub open spec fn digit_char(d: nat) -> char {
    if d == 0 {
        '0'
    } else if d == 1 {
        '1'
    } else if d == 2 {
        '2'
    } else if d == 3 {
        '3'
    } else if d == 4 {
        '4'
    } else if d == 5 {
        '5'
    } else if d == 6 {
        '6'
    } else if d == 7 {
        '7'
    } else if d == 8 {
        '8'
    } else {
        '9'
    }
}

/// The decimal digits of `n`, most significant first, without leading
/// zeros (`"0"` for 0).
pub open spec fn decimal(n: nat) -> Seq<char>
    decreases n,
{
    if n < 10 {
        seq![digit_char(n)]
    } else {
        decimal(n / 10).push(digit_char(n % 10))
    }
}

/// The text of digit `d`.
fn digit_str(d: u64) -> (r: &'static str)
    requires
        d < 10,
    ensures
        r@ == seq![digit_char(d as nat)],
{
    proof {
        reveal_strlit("0");
        reveal_strlit("1");
        reveal_strlit("2");
        reveal_strlit("3");
        reveal_strlit("4");
        reveal_strlit("5");
        reveal_strlit("6");
        reveal_strlit("7");
        reveal_strlit("8");
        reveal_strlit("9");
    }
    if d == 0 {
        "0"
    } else if d == 1 {
        "1"
    } else if d == 2 {
        "2"
    } else if d == 3 {
        "3"
    } else if d == 4 {
        "4"
    } else if d == 5 {
        "5"
    } else if d == 6 {
        "6"
    } else if d == 7 {
        "7"
    } else if d == 8 {
        "8"
    } else {
        "9"
    }
}

/// Appends the decimal digits of `n` to `s`.
fn push_decimal(s: &mut String, n: u64)
    ensures
        final(s)@ == old(s)@ + decimal(n as nat),
    decreases n,
{
    if n >= 10 {
        push_decimal(s, n / 10);
    }
    s.append(digit_str(n % 10));
    proof {
        if n >= 10 {
            assert(old(s)@ + decimal(n as nat) =~= old(s)@ + decimal((n / 10) as nat) + seq![
                digit_char((n % 10) as nat),
            ]);
        } else {
            assert(decimal(n as nat) =~= seq![digit_char(n as nat)]);
        }
    }
}

/// The default name of worker thread `id`: `"Worker: "` and `id` in
/// decimal.
pub fn default_worker_name(id: u8) -> (r: String)
    ensures
        r@ == "Worker: "@ + decimal(id as nat),
{
    let mut s = String::from_str("Worker: ");
    push_decimal(&mut s, id as u64);
    s
}

/// The default name of blocking-pool thread `id`: `"Thread: "` and `id` in
/// decimal.
pub fn default_thread_name(id: usize) -> (r: String)
    ensures
        r@ == "Thread: "@ + decimal(id as nat),
{
    let mut s = String::from_str("Thread: ");
    push_decimal(&mut s, id as u64);
    s
}

/// The duration of `secs` whole seconds, as `Duration::from_secs` gives it.
pub uninterp spec fn duration_of_secs(secs: u64) -> Duration;

/// Calls `Duration::from_secs`; the result is [`duration_of_secs`] of
/// `secs`. It never panics.
#[verifier::external_body]
fn duration_from_secs(secs: u64) -> (r: Duration)
    ensures
        r == duration_of_secs(secs),
{
    Duration::from_secs(secs)
}

/// A function that names a thread from its index, shareable across threads.
pub trait ThreadNamer<Id>: Send + Sync {
    /// Whether the function may be called with `id`.
    spec fn accepts(&self, id: Id) -> bool;

    /// Whether `name` is a name the function may give to `id`.
    spec fn gives(&self, id: Id, name: String) -> bool;

    fn name(&self, id: Id) -> (r: String)
        requires
            self.accepts(id),
        ensures
            self.gives(id, r),
    ;
}

impl<Id, F: Fn(Id) -> String + Send + Sync> ThreadNamer<Id> for F {
    open spec fn accepts(&self, id: Id) -> bool {
        self.requires((id,))
    }

    /// The names the closure's own contract allows for `id`.
    open spec fn gives(&self, id: Id, name: String) -> bool {
        self.ensures((id,), name)
    }

    fn name(&self, id: Id) -> (r: String) {
        (self)(id)
    }
}

/// How worker threads are named: `"Worker: {id}"` by default, or by a
/// function of the user's.
pub enum WorkerNaming {
    Default,
    Custom(Box<dyn ThreadNamer<u8>>),
}

impl ThreadNamer<u8> for WorkerNaming {
    open spec fn accepts(&self, id: u8) -> bool {
        match self {
            WorkerNaming::Default => true,
            WorkerNaming::Custom(f) => f.accepts(id),
        }
    }

    open spec fn gives(&self, id: u8, name: String) -> bool {
        match self {
            WorkerNaming::Default => name@ == "Worker: "@ + decimal(id as nat),
            WorkerNaming::Custom(f) => f.gives(id, name),
        }
    }

    fn name(&self, id: u8) -> (r: String) {
        match self {
            WorkerNaming::Default => default_worker_name(id),
            WorkerNaming::Custom(f) => f.name(id),
        }
    }
}

/// How blocking-pool threads are named: `"Thread: {id}"` by default, or by
/// a function of the user's.
pub enum ThreadNaming {
    Default,
    Custom(Box<dyn ThreadNamer<usize>>),
}

impl ThreadNamer<usize> for ThreadNaming {
    open spec fn accepts(&self, id: usize) -> bool {
        match self {
            ThreadNaming::Default => true,
            ThreadNaming::Custom(f) => f.accepts(id),
        }
    }

    open spec fn gives(&self, id: usize, name: String) -> bool {
        match self {
            ThreadNaming::Default => name@ == "Thread: "@ + decimal(id as nat),
            ThreadNaming::Custom(f) => f.gives(id, name),
        }
    }

    fn name(&self, id: usize) -> (r: String) {
        match self {
            ThreadNaming::Default => default_thread_name(id),
            ThreadNaming::Custom(f) => f.name(id),
        }
    }
}

/// The plain settings of a [`RuntimeBuilder`].
#[derive(Clone, Copy)]
pub struct Settings {
    /// Number of worker threads; never 0.
    pub worker_threads: u8,
    /// Stack size of worker threads; `None` keeps the platform default.
    pub worker_stack_size: Option<usize>,
    /// How many tasks a worker runs between two polls of its I/O driver.
    pub event_interval: u32,
    /// Load under which a worker is taken at once when tasks are spread.
    pub min_tasks_per_worker: Option<u64>,
    pub threadpool_load_factor: usize,
    pub max_blocking_threads: u16,
    pub thread_stack_size: usize,
    pub thread_timeout: Option<Duration>,
}

/// Builds a runtime.
pub struct RuntimeBuilder {
    worker_threads: u8,
    worker_stack_size: Option<usize>,
    worker_name: Option<WorkerNaming>,
    event_interval: u32,
    min_tasks_per_worker: Option<u64>,
    threadpool_load_factor: usize,
    max_blocking_threads: u16,
    thread_stack_size: usize,
    thread_timeout: Option<Duration>,
    thread_name: Option<ThreadNaming>,
    measurement: Option<Box<dyn Measurement>>,
}

impl View for RuntimeBuilder {
    type V = Settings;

    closed spec fn view(&self) -> Settings {
        Settings {
            worker_threads: self.worker_threads,
            worker_stack_size: self.worker_stack_size,
            event_interval: self.event_interval,
            min_tasks_per_worker: self.min_tasks_per_worker,
            threadpool_load_factor: self.threadpool_load_factor,
            max_blocking_threads: self.max_blocking_threads,
            thread_stack_size: self.thread_stack_size,
            thread_timeout: self.thread_timeout,
        }
    }
}

/// The load threshold used when none is set: half the workers, at least 1.
pub open spec fn default_min_tasks(worker_threads: u8) -> u64 {
    if worker_threads / 2 > 1 {
        (worker_threads / 2) as u64
    } else {
        1
    }
}

impl RuntimeBuilder {
    /// The settings are valid: at least one worker, a positive event
    /// interval and, when set, positive sizes and thresholds.
    pub closed spec fn wf(&self) -> bool {
        &&& self.worker_threads > 0
        &&& self.event_interval > 0
        &&& (self.worker_stack_size matches Some(n) ==> n > 0)
        &&& (self.min_tasks_per_worker matches Some(n) ==> n > 0)
    }

    /// How worker threads are named, while the builder holds it.
    pub closed spec fn worker_naming(&self) -> Option<WorkerNaming> {
        self.worker_name
    }

    /// How blocking-pool threads are named, while the builder holds it.
    pub closed spec fn thread_naming(&self) -> Option<ThreadNaming> {
        self.thread_name
    }

    /// The measurement, while the builder holds it.
    pub closed spec fn measurement_held(&self) -> Option<Box<dyn Measurement>> {
        self.measurement
    }

    /// The name functions and the measurement held.
    pub open spec fn hooks(&self) -> (
        Option<WorkerNaming>,
        Option<ThreadNaming>,
        Option<Box<dyn Measurement>>,
    ) {
        (self.worker_naming(), self.thread_naming(), self.measurement_held())
    }

    /// Whether a name function for worker threads is still held.
    pub open spec fn has_worker_name(&self) -> bool {
        self.worker_naming().is_some()
    }

    /// Whether a name function for blocking-pool threads is still held.
    pub open spec fn has_thread_name(&self) -> bool {
        self.thread_naming().is_some()
    }

    /// Whether a measurement is still held.
    pub open spec fn has_measurement(&self) -> bool {
        self.measurement_held().is_some()
    }

    /// The default settings, with one worker per available core
    /// (`available_parallelism`, or 1 when unknown).
    pub fn new(available_parallelism: Option<usize>) -> (r: RuntimeBuilder)
        requires
            available_parallelism matches Some(n) ==> 0 < n <= 255,
        ensures
            r.wf(),
            r@.worker_threads == (match available_parallelism {
                Some(n) => n,
                None => 1,
            }),
            r@.worker_stack_size is None,
            r@.event_interval == 61,
            r@.min_tasks_per_worker is None,
            r@.threadpool_load_factor == 2,
            r@.max_blocking_threads == 512,
            r@.thread_stack_size == 0,
            r@.thread_timeout == Some(duration_of_secs(10)),
            r.worker_naming() == Some(WorkerNaming::Default),
            r.thread_naming() == Some(ThreadNaming::Default),
            r.has_measurement(),
    {
        let workers: usize = match available_parallelism {
            Some(n) => n,
            None => 1,
        };
        RuntimeBuilder {
            worker_threads: workers as u8,
            worker_stack_size: None,
            worker_name: Some(WorkerNaming::Default),
            event_interval: 61,
            min_tasks_per_worker: None,
            threadpool_load_factor: 2,
            max_blocking_threads: 512,
            thread_stack_size: 0,
            thread_timeout: Some(duration_from_secs(10)),
            thread_name: Some(ThreadNaming::Default),
            measurement: Some(Box::new(NoMeasurement)),
        }
    }

    /// Reports queue events of the runtime to `metrics`.
    pub fn measurement<M: Measurement + 'static>(self, metrics: M) -> (r: RuntimeBuilder)
        ensures
            r@ == self@,
            self.wf() ==> r.wf(),
            r.worker_naming() == self.worker_naming(),
            r.thread_naming() == self.thread_naming(),
            r.has_measurement(),
    {
        let mut s = self;
        s.measurement = Some(Box::new(metrics));
        s
    }

    /// Sets the number of worker threads; `val` must not be 0.
    pub fn worker_threads(self, val: u8) -> (r: RuntimeBuilder)
        requires
            val > 0,
        ensures
            r@ == (Settings { worker_threads: val, ..self@ }),
            self.wf() ==> r.wf(),
            r.hooks() == self.hooks(),
    {
        let mut s = self;
        s.worker_threads = val;
        s
    }

    /// Sets the number of worker threads, or gives the builder back
    /// unchanged when `val` is 0.
    pub fn try_worker_threads(self, val: u8) -> (r: Result<RuntimeBuilder, RuntimeBuilder>)
        ensures
            val > 0 ==> (r matches Ok(b) && b@ == (Settings { worker_threads: val, ..self@ })
                && (self.wf() ==> b.wf()) && b.hooks() == self.hooks()),
            val == 0 ==> (r matches Err(b) && b == self),
    {
        if val > 0 {
            Ok(self.worker_threads(val))
        } else {
            Err(self)
        }
    }

    /// Sets the stack size of worker threads; 0 keeps the platform default.
    pub fn worker_stack_size(self, size: usize) -> (r: RuntimeBuilder)
        ensures
            r@ == (Settings {
                worker_stack_size: if size == 0 {
                    None
                } else {
                    Some(size)
                },
                ..self@
            }),
            self.wf() ==> r.wf(),
            r.hooks() == self.hooks(),
    {
        let mut s = self;
        s.worker_stack_size = if size == 0 {
            None
        } else {
            Some(size)
        };
        s
    }

    /// Sets how many tasks a worker runs between two polls of its I/O
    /// driver; `tick` must not be 0.
    pub fn event_interval(self, tick: u32) -> (r: RuntimeBuilder)
        requires
            tick > 0,
        ensures
            r@ == (Settings { event_interval: tick, ..self@ }),
            self.wf() ==> r.wf(),
            r.hooks() == self.hooks(),
    {
        let mut s = self;
        s.event_interval = tick;
        s
    }

    /// Sets the event interval, or gives the builder back unchanged when
    /// `tick` is 0.
    pub fn try_event_interval(self, tick: u32) -> (r: Result<RuntimeBuilder, RuntimeBuilder>)
        ensures
            tick > 0 ==> (r matches Ok(b) && b@ == (Settings { event_interval: tick, ..self@ })
                && (self.wf() ==> b.wf()) && b.hooks() == self.hooks()),
            tick == 0 ==> (r matches Err(b) && b == self),
    {
        if tick > 0 {
            Ok(self.event_interval(tick))
        } else {
            Err(self)
        }
    }

    /// Sets the load under which a worker is taken at once; `count` must not
    /// be 0.
    pub fn min_tasks_per_worker(self, count: usize) -> (r: RuntimeBuilder)
        requires
            count != 0,
        ensures
            r@ == (Settings { min_tasks_per_worker: Some(count as u64), ..self@ }),
            self.wf() ==> r.wf(),
            r.hooks() == self.hooks(),
    {
        let mut s = self;
        s.min_tasks_per_worker = Some(count as u64);
        s
    }

    /// Sets the load under which a worker is taken at once, or gives the
    /// builder back unchanged when `count` is 0.
    pub fn try_min_tasks_per_worker(self, count: usize) -> (r: Result<
        RuntimeBuilder,
        RuntimeBuilder,
    >)
        ensures
            count != 0 ==> (r matches Ok(b) && b@ == (Settings {
                min_tasks_per_worker: Some(count as u64),
                ..self@
            }) && (self.wf() ==> b.wf()) && b.hooks() == self.hooks()),
            count == 0 ==> (r matches Err(b) && b == self),
    {
        if count != 0 {
            Ok(self.min_tasks_per_worker(count))
        } else {
            Err(self)
        }
    }

    /// Sets the stack size of blocking-pool threads.
    pub fn thread_stack_size(self, size: usize) -> (r: RuntimeBuilder)
        ensures
            r@ == (Settings { thread_stack_size: size, ..self@ }),
            self.wf() ==> r.wf(),
            r.hooks() == self.hooks(),
    {
        let mut s = self;
        s.thread_stack_size = size;
        s
    }

    /// Sets the load factor of the blocking pool.
    pub fn threadpool_load_factor(self, factor: usize) -> (r: RuntimeBuilder)
        ensures
            r@ == (Settings { threadpool_load_factor: factor, ..self@ }),
            self.wf() ==> r.wf(),
            r.hooks() == self.hooks(),
    {
        let mut s = self;
        s.threadpool_load_factor = factor;
        s
    }

    /// Sets the maximum number of blocking-pool threads.
    pub fn max_blocking_threads(self, val: u16) -> (r: RuntimeBuilder)
        ensures
            r@ == (Settings { max_blocking_threads: val, ..self@ }),
            self.wf() ==> r.wf(),
            r.hooks() == self.hooks(),
    {
        let mut s = self;
        s.max_blocking_threads = val;
        s
    }

    /// Sets how long an idle blocking-pool thread waits before it exits.
    pub fn thread_timeout(self, dur: Option<Duration>) -> (r: RuntimeBuilder)
        ensures
            r@ == (Settings { thread_timeout: dur, ..self@ }),
            self.wf() ==> r.wf(),
            r.hooks() == self.hooks(),
    {
        let mut s = self;
        s.thread_timeout = dur;
        s
    }

    /// Names blocking-pool threads with `f`.
    pub fn thread_name<F>(self, f: F) -> (r: RuntimeBuilder) where
        F: Fn(usize) -> String + 'static + Send + Sync,
        ensures
            r@ == self@,
            self.wf() ==> r.wf(),
            r.thread_naming() matches Some(ThreadNaming::Custom(_)),
            r.worker_naming() == self.worker_naming(),
            r.measurement_held() == self.measurement_held(),
    {
        let mut s = self;
        s.thread_name = Some(ThreadNaming::Custom(Box::new(f)));
        s
    }

    /// Names worker threads with `f`.
    pub fn worker_name<F>(self, f: F) -> (r: RuntimeBuilder) where
        F: Fn(u8) -> String + 'static + Send + Sync,
        ensures
            r@ == self@,
            self.wf() ==> r.wf(),
            r.worker_naming() matches Some(WorkerNaming::Custom(_)),
            r.thread_naming() == self.thread_naming(),
            r.measurement_held() == self.measurement_held(),
    {
        let mut s = self;
        s.worker_name = Some(WorkerNaming::Custom(Box::new(f)));
        s
    }

    /// The current settings.
    pub fn settings(&self) -> (r: Settings)
        ensures
            r == self@,
    {
        Settings {
            worker_threads: self.worker_threads,
            worker_stack_size: self.worker_stack_size,
            event_interval: self.event_interval,
            min_tasks_per_worker: self.min_tasks_per_worker,
            threadpool_load_factor: self.threadpool_load_factor,
            max_blocking_threads: self.max_blocking_threads,
            thread_stack_size: self.thread_stack_size,
            thread_timeout: self.thread_timeout,
        }
    }

    /// The load threshold the runtime uses: the one set, else half the
    /// workers and at least 1.
    pub fn resolved_min_tasks_per_worker(&self) -> (r: u64)
        ensures
            r == (match self@.min_tasks_per_worker {
                Some(n) => n,
                None => default_min_tasks(self@.worker_threads),
            }),
    {
        match self.min_tasks_per_worker {
            Some(count) => count,
            None => {
                let half: u64 = (self.worker_threads / 2) as u64;
                if half > 1 {
                    half
                } else {
                    1
                }
            },
        }
    }

    /// Hands out the naming of worker threads.
    pub fn take_worker_name(&mut self) -> (r: Option<WorkerNaming>)
        ensures
            r == old(self).worker_naming(),
            final(self).worker_naming() is None,
            final(self)@ == old(self)@,
            final(self).wf() == old(self).wf(),
            final(self).thread_naming() == old(self).thread_naming(),
            final(self).measurement_held() == old(self).measurement_held(),
    {
        self.worker_name.take()
    }

    /// Hands out the naming of blocking-pool threads.
    pub fn take_thread_name(&mut self) -> (r: Option<ThreadNaming>)
        ensures
            r == old(self).thread_naming(),
            final(self).thread_naming() is None,
            final(self)@ == old(self)@,
            final(self).wf() == old(self).wf(),
            final(self).worker_naming() == old(self).worker_naming(),
            final(self).measurement_held() == old(self).measurement_held(),
    {
        self.thread_name.take()
    }

    /// Hands out the measurement.
    pub fn take_measurement(&mut self) -> (r: Option<Box<dyn Measurement>>)
        ensures
            r == old(self).measurement_held(),
            final(self).measurement_held() is None,
            final(self)@ == old(self)@,
            final(self).wf() == old(self).wf(),
            final(self).worker_naming() == old(self).worker_naming(),
            final(self).thread_naming() == old(self).thread_naming(),
    {
        self.measurement.take()
    }
}

} // verus!
