# nio

The verified core of Nio, a multi-threaded async runtime in which every
worker thread owns an I/O driver, a local task queue, a shared queue fed by
other threads, and its timers.

`src/` is verified with Verus:

- `task_counter`, `task_queue`: the packed 64-bit counters of a worker's
  queues (local count, shared count, notified flag) and their transitions.
- `worker`: worker identities and the choice of the worker that takes a new
  task.
- `task`: where a task that becomes ready is placed.
- `event_loop`: what a worker decides between two rounds of running tasks.
- `timer`: the timers of one worker, sleeps, intervals and timeouts.
- `io_waker`, `local_waker`: readiness of an I/O source and its wakers.
- `signal`: the handshake of `block_on` with the wakers of its future.
- `builder`, `metrics`: runtime configuration and queue-event hooks.
- `console`: layout arithmetic and key handling of the terminal view.

`app/` holds what runs around it: threads, lock-free queues, the operating
system's event queue through `mio`, sockets, files, futures and the
terminal view.
