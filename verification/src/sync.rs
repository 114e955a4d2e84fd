//! Synchronization primitives.

pub mod spinlock;
