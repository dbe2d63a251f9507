pub mod arena;
pub mod backoff;
pub mod broad;
pub mod condvar;
pub mod flip_queue;
pub mod mutex;
pub mod park;
pub mod ring_buffer;
pub mod rwlock;
pub mod spin;
pub mod state_ptr;
pub mod sync;
pub mod triple;
