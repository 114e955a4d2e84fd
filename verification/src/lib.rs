//! Core of a user-space M:N coroutine runtime: a work-stealing scheduler,
//! a reactor that owns readiness registrations, and the park/ready latch
//! that bridges them. The library verifies the decision logic of each
//! component over a sequential model; context switching, threads and the
//! kernel poller live outside it.

use vstd::prelude::*;

pub mod handle;
pub mod net;
pub mod processor;
pub mod ready_states;
pub mod scheduler;
pub mod slab_store;
pub mod sync;

verus! {

/// Capacity of a worker's local run queue.
pub const QUEUE_SIZE: usize = 256;

} // verus!
