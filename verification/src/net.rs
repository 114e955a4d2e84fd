//! The I/O adapter around a non-blocking descriptor.
//!
//! The running adapter loops: perform the underlying read, write or
//! flush; on success or a real error return; on would-block park on the
//! registration's latch and try again. The calls into the descriptor
//! and the parking are outside work; the decision each round, the guard
//! that keeps a panicking operation from starving its worker, and what
//! a registration's latch looks like are verified here.

use vstd::prelude::*;
use crate::ready_states::ReadyType;
use crate::ready_states::fresh_latch;
use crate::scheduler::Scheduler;
use crate::scheduler::register_transition;

verus! {

/// What one underlying non-blocking call reported.
#[derive(Clone, Copy, PartialEq, Eq, Structural, Debug)]
pub enum IoStatus {
    /// The call succeeded; the operation returns its result.
    Done,
    /// The descriptor was not ready.
    WouldBlock,
    /// Reported by some descriptors before a connection settles; the
    /// adapter treats it like would-block rather than as a failure.
    NotConnected,
    /// Any other error; the operation returns it unchanged.
    Failed,
}

/// What the adapter's retry loop does next.
#[derive(Clone, Copy, PartialEq, Eq, Structural, Debug)]
pub enum IoAction {
    /// Hand the result (or error) to the caller.
    Return,
    /// Park on the registration's latch for `wait_on`, then retry.
    Wait(ReadyType),
}

/// Whether a status makes the adapter wait instead of returning.
pub open spec fn blocks(status: IoStatus) -> bool {
    status is WouldBlock || status is NotConnected
}

/// The decision after one `read` attempt: would-block waits for
/// readability; everything else returns.
pub fn read_step(status: IoStatus) -> (r: IoAction)
    ensures
        r == if blocks(status) {
            IoAction::Wait(ReadyType::Readable)
        } else {
            IoAction::Return
        },
{
    match status {
        IoStatus::WouldBlock | IoStatus::NotConnected => IoAction::Wait(ReadyType::Readable),
        IoStatus::Done | IoStatus::Failed => IoAction::Return,
    }
}

/// The decision after one `write` attempt: would-block waits for
/// writability; everything else returns.
pub fn write_step(status: IoStatus) -> (r: IoAction)
    ensures
        r == if blocks(status) {
            IoAction::Wait(ReadyType::Writable)
        } else {
            IoAction::Return
        },
{
    match status {
        IoStatus::WouldBlock | IoStatus::NotConnected => IoAction::Wait(ReadyType::Writable),
        IoStatus::Done | IoStatus::Failed => IoAction::Return,
    }
}

/// The decision after one `flush` attempt: as for `write`.
pub fn flush_step(status: IoStatus) -> (r: IoAction)
    ensures
        r == if blocks(status) {
            IoAction::Wait(ReadyType::Writable)
        } else {
            IoAction::Return
        },
{
    write_step(status)
}

/// A wrapped non-blocking descriptor, as the core sees it: the token of
/// its live registration in the reactor's table. Construction registers
/// the descriptor and drop deregisters it; both run through the reactor
/// messages, and the descriptor itself stays outside the model.
pub struct GenericEvented {
    pub token: usize,
}

impl GenericEvented {
    /// Record a completed registration: the reactor answered `token`.
    pub fn new(token: usize) -> (r: GenericEvented)
        ensures
            r.token == token,
    {
        GenericEvented { token }
    }
}

/// Armed at the head of each I/O operation and disarmed at the first
/// suspension or before a successful return. If the operation unwinds
/// while still armed, the drop path yields once, so a panicking tight
/// loop cannot starve its worker.
pub struct SyncGuard {
    armed: bool,
}

impl SyncGuard {
    pub closed spec fn armed_spec(&self) -> bool {
        self.armed
    }

    pub fn new() -> (r: SyncGuard)
        ensures
            r.armed_spec(),
    {
        SyncGuard { armed: true }
    }

    pub fn disarm(&mut self)
        ensures
            !final(self).armed_spec(),
    {
        self.armed = false;
    }

    /// The drop decision: yield exactly when the guard is still armed.
    pub fn should_sched(&self) -> (r: bool)
        ensures
            r == self.armed_spec(),
    {
        self.armed
    }
}

/// Dropping a wrapped descriptor and registering a fresh one yields an
/// identical interaction trace: every successful registration stores a
/// latch in the fresh state — nothing latched, nobody parked — so the
/// second wrapper starts exactly where the first did.
pub proof fn lemma_reregistration_identical(
    pre1: Scheduler,
    post1: Scheduler,
    c1: u64,
    t1: usize,
    pre2: Scheduler,
    post2: Scheduler,
    c2: u64,
    t2: usize,
)
    requires
        register_transition(pre1, post1, c1, true, Some(t1)),
        register_transition(pre2, post2, c2, true, Some(t2)),
    ensures
        post1.entries()[t1]@ == fresh_latch(),
        post2.entries()[t2]@ == fresh_latch(),
        post1.entries()[t1]@ == post2.entries()[t2]@,
{
}

} // verus!
