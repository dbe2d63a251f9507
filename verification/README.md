# amity

Concurrency building blocks with machine-checked contracts.

`src/` is verified with Verus:

- `ring_buffer`: heap ring buffer (push at the back, pop at the front, growth by
  doubling; a buffer of a zero-sized type has `usize::MAX` slots from the start), its
  draining handle and a double-ended iterator; the contracts speak of the buffer's values
  as a sequence.
- `flip_queue`: a ring buffer with counted pushes and pops that a flush folds in.
- `state_ptr`: packing a small state into the low bits of an aligned address.
- `triple`: the flags word of a triple buffer, its three slots and the producer and
  consumer sides.
- `spin`: a spin lock and a read-write spin lock; waiting loops are offered one round at
  a time. A model of all lockers shows mutual exclusion; the model decides on the lock
  word through the same spec functions as the rounds, but nothing proves that the
  rounds perform the model's steps (what an atomic word holds cannot be stated), so
  that tie rests on reading the code.
- `condvar`, `mutex`, `rwlock`, `park`: an 8-bit condition variable and the locks built on
  it. The condition variable keeps no list of parked waiters: a waiter backs off and
  reads the state again instead of parking, so an update wakes nobody (its `wake`
  argument has no effect) and `optimistic_update` does not fail because of waiters.
- The flip buffer's `push_sync` and `pop_sync` take the buffer exclusively; in `app/`
  the flip queue runs them under the write lock, so pushes do not run in parallel.
- `arena`, `backoff`, `broad`, `sync`: a typed arena with a free list, exponential
  back-off, broadcast versioning (a value's version is the sender's count of sends, so
  every value sent after a receive is new to that receiver) and exclusive access to an
  atomic counter.

`app/` holds what needs threads, raw addresses, layout attributes or `lock_api`: the
blocking loops, the `lock_api` raw locks, the flip queue, the broadcasting channel and the
cache-line padding, and `with_atomic`.
