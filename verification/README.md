# spsc

A single-producer, single-consumer channel between threads and coroutines, with
its logic verified by Verus.

- `src/` is the library. `inner` is the state that the two halves share, on top
  of `fifo` (the messages), `slot` and `blocker` (who waits). `send`, `recv`,
  `timeout` and `park` are the operations, step by step; `channel` offers them as
  single calls. `system` and `laws` state and prove what holds however the steps
  of the producer, the consumer, the scheduler and the timers fall in time.
- `app/` shares the state behind a lock, parks threads, and hands coroutines to a
  scheduler.
- `tests/` runs the library, in single calls and step by step in many orders.

The order of the messages is kept by `may_queue::spsc::Queue`, whose behaviour is
stated, not proved, in `src/fifo.rs`.

What the proofs take for granted: each access to the shared state is seen by
everybody before the next one; a parked thread may go on at any time, and a
coroutine runs only when it was given to the scheduler; no timer fires before it
is due, and no clock tells less time than is left.

What they show a user has to know:

- A coroutine that receives without a timeout is not woken by the loss of the
  sender if that happens after its last look at the channel and before it is
  registered. A thread is, and so is a coroutine that receives with a timeout.
- A message that is appended while the receiver goes away counts as sent.
