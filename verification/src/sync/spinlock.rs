//! Short-critical-section mutual exclusion primitives.
//!
//! The running system spins on atomics; the model here captures the
//! ownership discipline the locks enforce: locking moves the protected
//! value into a guard, unlocking moves it back, so the value is reachable
//! through at most one of lock and guard at any moment. The backoff
//! arithmetic of the spin loops is verified exactly as the spin paths
//! compute it.

use vstd::prelude::*;

verus! {

/// First backoff of the unfair spinlock, in pause iterations.
pub const BACKOFF_BASE: usize = 16;

/// Largest backoff of the unfair spinlock, in pause iterations.
pub const BACKOFF_CEILING: usize = 4096;

/// The exponential backoff step of the unfair spinlock's acquire loop:
/// each failed acquire doubles the pause count until the ceiling.
pub fn backoff_next(backoff: usize) -> (r: usize)
    requires
        backoff <= BACKOFF_CEILING,
    ensures
        r == if backoff == BACKOFF_CEILING { backoff as int } else { 2 * backoff },
        r <= BACKOFF_CEILING || backoff > BACKOFF_CEILING / 2,
{
    if backoff == BACKOFF_CEILING {
        backoff
    } else {
        backoff * 2
    }
}

/// The proportional backoff of the ticket lock's acquire loop: a holder
/// of `ticket` pauses four iterations per ticket still ahead of it.
pub fn ticket_backoff(ticket: usize, now_serving: usize) -> (r: usize)
    requires
        now_serving <= ticket,
        4 * (ticket - now_serving) <= usize::MAX,
    ensures
        r == 4 * (ticket - now_serving),
{
    (ticket - now_serving) * 4
}

/// A simple, unfair test-and-set lock.
///
/// `None` means some guard holds the protected value; `Some` means the
/// lock is free and owns it.
pub struct Spinlock<T> {
    data: Option<T>,
}

/// Witness of a held [`Spinlock`], owning the protected value until it
/// is handed back through `unlock`.
pub struct SpinlockGuard<T> {
    pub data: T,
}

impl<T> View for Spinlock<T> {
    type V = Option<T>;

    closed spec fn view(&self) -> Option<T> {
        self.data
    }
}

impl<T> Spinlock<T> {
    pub fn new(data: T) -> (r: Spinlock<T>)
        ensures
            r@ == Some(data),
    {
        Spinlock { data: Some(data) }
    }

    /// One compare-exchange attempt: succeeds exactly when the lock is
    /// free, moving the protected value into the returned guard.
    pub fn try_lock(&mut self) -> (r: Option<SpinlockGuard<T>>)
        ensures
            match r {
                Some(g) => old(self)@ == Some(g.data) && final(self)@ is None,
                None => old(self)@ is None && final(self)@ == old(self)@,
            },
    {
        match self.data.take() {
            Some(data) => Some(SpinlockGuard { data }),
            None => None,
        }
    }

    /// Acquire, spinning with exponential backoff until the lock is free.
    /// Within one thread of control a free lock is acquired at once; a
    /// lock already held here would spin forever, so that case is ruled
    /// out.
    pub fn lock(&mut self) -> (g: SpinlockGuard<T>)
        requires
            old(self)@ is Some,
        ensures
            old(self)@ == Some(g.data),
            final(self)@ is None,
    {
        match self.data.take() {
            Some(data) => SpinlockGuard { data },
            None => unreached(),
        }
    }

    /// Release: the guard hands the protected value back. Models the
    /// guard going out of scope.
    pub fn unlock(&mut self, g: SpinlockGuard<T>)
        requires
            old(self)@ is None,
        ensures
            final(self)@ == Some(g.data),
    {
        self.data = Some(g.data);
    }
}

/// The next value of a ticket counter; the counters wrap around.
pub open spec fn ticket_inc(x: usize) -> usize {
    if x == usize::MAX { 0 } else { (x + 1) as usize }
}

/// A fair FIFO lock: `tick` is the next ticket to issue, `tock` the
/// ticket now served. Acquirers are served strictly in ticket order.
pub struct TicketSpinlock<T> {
    tick: usize,
    tock: usize,
    data: Option<T>,
}

/// Witness of a held [`TicketSpinlock`]; releasing serves the next ticket.
/// `next` is the ticket that release will serve.
pub struct TicketSpinlockGuard<T> {
    pub next: usize,
    pub data: T,
}

impl<T> View for TicketSpinlock<T> {
    type V = Option<T>;

    closed spec fn view(&self) -> Option<T> {
        self.data
    }
}

impl<T> TicketSpinlock<T> {
    /// The next ticket the issue counter hands out.
    pub closed spec fn tick_spec(&self) -> usize {
        self.tick
    }

    /// The ticket now being served.
    pub closed spec fn tock_spec(&self) -> usize {
        self.tock
    }

    /// Free lock with counters aligned: the next issued ticket is served
    /// at once, and tickets are granted in issue order from here on.
    pub open spec fn wf(&self) -> bool {
        self@ is Some <==> self.tick_spec() == self.tock_spec()
    }

    pub fn new(data: T) -> (r: TicketSpinlock<T>)
        ensures
            r@ == Some(data),
            r.tick_spec() == 0,
            r.tock_spec() == 0,
            r.wf(),
    {
        TicketSpinlock { tick: 0, tock: 0, data: Some(data) }
    }

    /// Acquire: draw the ticket `tick`, advance the issue counter, and
    /// spin with proportional backoff until `tock` reaches the ticket.
    /// Sequentially that holds on entry, so the draw is also the grant;
    /// a lock already held here would spin forever and is ruled out.
    pub fn lock(&mut self) -> (g: TicketSpinlockGuard<T>)
        requires
            old(self)@ is Some,
            old(self).wf(),
        ensures
            old(self)@ == Some(g.data),
            g.next == ticket_inc(old(self).tick_spec()),
            final(self)@ is None,
            final(self).tick_spec() == ticket_inc(old(self).tick_spec()),
            final(self).tock_spec() == old(self).tock_spec(),
    {
        let ticket = self.tick;
        self.tick = if ticket == usize::MAX { 0 } else { ticket + 1 };
        match self.data.take() {
            Some(data) => TicketSpinlockGuard { next: self.tick, data },
            None => unreached(),
        }
    }

    /// Release: store the guard's successor ticket into `tock`, serving
    /// the next acquirer in FIFO order, and hand the value back. With the
    /// guard issued by the matching `lock`, the lock is well-formed and
    /// free again with both counters advanced by one: successive grants
    /// carry successive tickets.
    pub fn unlock(&mut self, g: TicketSpinlockGuard<T>)
        requires
            old(self)@ is None,
            g.next == ticket_inc(old(self).tock_spec()),
            g.next == old(self).tick_spec(),
        ensures
            final(self)@ == Some(g.data),
            final(self).tock_spec() == g.next,
            final(self).tick_spec() == old(self).tick_spec(),
            final(self).wf(),
    {
        self.tock = g.next;
        self.data = Some(g.data);
    }
}

} // verus!
