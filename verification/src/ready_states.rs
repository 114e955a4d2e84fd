//! The park/ready synchronization hinge: a per-registration readiness
//! latch with one waiter slot per readiness kind.
//!
//! Readiness observed by the reactor sticks in the latch until a `wait`
//! consumes it, which emulates level-triggered semantics on top of an
//! edge-triggered poller. In the running system the latch sits behind a
//! spinlock and `wait` races `notify`; each operation here is one
//! linearized critical section of that lock.

use vstd::prelude::*;
use vstd::map::*;
use vstd::assert_sets_equal;
use crate::handle::Handle;
use crate::handle::HandleList;

verus! {

/// One readiness kind: one bit of the kernel event set.
#[derive(Clone, Copy, PartialEq, Eq, Structural, Debug)]
pub enum ReadyType {
    Readable,
    Writable,
    Error,
    Hup,
}

/// A set of readiness kinds, the model of a kernel event set.
#[derive(Clone, Copy, PartialEq, Eq, Structural, Debug)]
pub struct EventMask {
    pub readable: bool,
    pub writable: bool,
    pub error: bool,
    pub hup: bool,
}

impl View for EventMask {
    type V = Set<ReadyType>;

    open spec fn view(&self) -> Set<ReadyType> {
        Set::new(|k: ReadyType| self.contains_spec(k))
    }
}

impl EventMask {
    pub open spec fn contains_spec(self, k: ReadyType) -> bool {
        match k {
            ReadyType::Readable => self.readable,
            ReadyType::Writable => self.writable,
            ReadyType::Error => self.error,
            ReadyType::Hup => self.hup,
        }
    }

    /// The empty event set.
    pub fn none() -> (r: EventMask)
        ensures
            r@ =~= Set::<ReadyType>::empty(),
    {
        EventMask { readable: false, writable: false, error: false, hup: false }
    }

    /// The event set holding exactly `k`.
    pub fn single(k: ReadyType) -> (r: EventMask)
        ensures
            r@ =~= Set::<ReadyType>::empty().insert(k),
    {
        let r = EventMask {
            readable: matches!(k, ReadyType::Readable),
            writable: matches!(k, ReadyType::Writable),
            error: matches!(k, ReadyType::Error),
            hup: matches!(k, ReadyType::Hup),
        };
        r
    }

    pub fn contains(self, k: ReadyType) -> (r: bool)
        ensures
            r == self@.contains(k),
    {
        match k {
            ReadyType::Readable => self.readable,
            ReadyType::Writable => self.writable,
            ReadyType::Error => self.error,
            ReadyType::Hup => self.hup,
        }
    }

    pub fn insert(self, k: ReadyType) -> (r: EventMask)
        ensures
            r@ =~= self@.insert(k),
    {
        let mut r = self;
        match k {
            ReadyType::Readable => r.readable = true,
            ReadyType::Writable => r.writable = true,
            ReadyType::Error => r.error = true,
            ReadyType::Hup => r.hup = true,
        }
        r
    }

    pub fn remove(self, k: ReadyType) -> (r: EventMask)
        ensures
            r@ =~= self@.remove(k),
    {
        let mut r = self;
        match k {
            ReadyType::Readable => r.readable = false,
            ReadyType::Writable => r.writable = false,
            ReadyType::Error => r.error = false,
            ReadyType::Hup => r.hup = false,
        }
        r
    }
}

/// The mathematical state of one latch: the set of latched readiness
/// kinds, and the parked coroutine (by identifier) per kind, if any.
pub ghost struct LatchState {
    pub latched: Set<ReadyType>,
    pub waiters: Map<ReadyType, u64>,
}

/// The state of a latch nothing has touched: nothing latched, nobody
/// parked.
pub open spec fn fresh_latch() -> LatchState {
    LatchState { latched: Set::empty(), waiters: Map::empty() }
}

impl LatchState {
    /// No coroutine is parked on any kind of this latch.
    pub open spec fn no_waiters(self) -> bool {
        forall|k: ReadyType| !self.waiters.dom().contains(k)
    }

    /// A waiter may be parked on a kind only while that kind is not
    /// latched: a latched bit would have been consumed instead of parking.
    pub open spec fn wf(self) -> bool {
        forall|k: ReadyType| self.waiters.dom().contains(k) ==> !self.latched.contains(k)
    }

    /// `wait(k)` returns without parking exactly when `k` is latched.
    pub open spec fn wait_is_immediate(self, k: ReadyType) -> bool {
        self.latched.contains(k)
    }

    /// The latch after `make_ready(k)`: the bit is set unconditionally.
    pub open spec fn after_make_ready(self, k: ReadyType) -> LatchState {
        LatchState { latched: self.latched.insert(k), waiters: self.waiters }
    }

    /// The latch after `wait(k)` by the coroutine with identifier `w`:
    /// either the latched bit is consumed, or `w` parks in slot `k`.
    pub open spec fn after_wait(self, k: ReadyType, w: u64) -> LatchState {
        if self.latched.contains(k) {
            LatchState { latched: self.latched.remove(k), waiters: self.waiters }
        } else {
            LatchState { latched: self.latched, waiters: self.waiters.insert(k, w) }
        }
    }

    /// The latch after `notify(events)`: per kind in `events`, the parked
    /// waiter is taken if one is present, else the bit is latched.
    pub open spec fn after_notify(self, events: Set<ReadyType>) -> LatchState {
        LatchState {
            latched: Set::new(|k: ReadyType|
                self.latched.contains(k)
                    || (events.contains(k) && !self.waiters.dom().contains(k))),
            waiters: self.waiters.remove_keys(events),
        }
    }

    /// The identifiers `notify(events)` hands back for dispatch, in the
    /// fixed kind order Readable, Writable, Error, Hup.
    pub open spec fn notify_delivered(self, events: Set<ReadyType>) -> Seq<u64> {
        self.delivered_one(events, ReadyType::Readable)
            + self.delivered_one(events, ReadyType::Writable)
            + self.delivered_one(events, ReadyType::Error)
            + self.delivered_one(events, ReadyType::Hup)
    }

    pub open spec fn delivered_one(self, events: Set<ReadyType>, k: ReadyType) -> Seq<u64> {
        if events.contains(k) && self.waiters.dom().contains(k) {
            seq![self.waiters[k]]
        } else {
            Seq::<u64>::empty()
        }
    }
}

/// The readiness latch of one registration: a 4-bit sticky mask plus one
/// waiter slot per kind.
pub struct ReadyStates {
    mask: EventMask,
    waiter_readable: Option<Handle>,
    waiter_writable: Option<Handle>,
    waiter_error: Option<Handle>,
    waiter_hup: Option<Handle>,
}

/// What `wait` did: `Immediate` hands the caller's handle straight back
/// (the latched bit was consumed); `Parked` means the latch now owns the
/// handle in the waiter slot.
pub enum WaitOutcome {
    Immediate(Handle),
    Parked,
}

impl View for ReadyStates {
    type V = LatchState;

    closed spec fn view(&self) -> LatchState {
        LatchState {
            latched: self.mask@,
            waiters: Map::new(
                |k: ReadyType| self.waiter_spec(k) is Some,
                |k: ReadyType| self.waiter_spec(k)->Some_0,
            ),
        }
    }
}

impl ReadyStates {
    pub closed spec fn waiter_spec(&self, k: ReadyType) -> Option<u64> {
        match k {
            ReadyType::Readable => match self.waiter_readable { Some(h) => Some(h@), None => None },
            ReadyType::Writable => match self.waiter_writable { Some(h) => Some(h@), None => None },
            ReadyType::Error => match self.waiter_error { Some(h) => Some(h@), None => None },
            ReadyType::Hup => match self.waiter_hup { Some(h) => Some(h@), None => None },
        }
    }

    /// A fresh latch: nothing latched, nobody parked.
    pub fn new() -> (r: ReadyStates)
        ensures
            r@.latched =~= Set::<ReadyType>::empty(),
            r@.waiters =~= Map::<ReadyType, u64>::empty(),
            r@.wf(),
    {
        let r = ReadyStates {
            mask: EventMask::none(),
            waiter_readable: None,
            waiter_writable: None,
            waiter_error: None,
            waiter_hup: None,
        };
        proof {
            assert_maps_equal!(r@.waiters, Map::<ReadyType, u64>::empty());
        }
        r
    }

    /// Whether a coroutine is parked in the `k` waiter slot.
    pub fn has_waiter(&self, k: ReadyType) -> (r: bool)
        ensures
            r == self@.waiters.dom().contains(k),
    {
        let r = match k {
            ReadyType::Readable => self.waiter_readable.is_some(),
            ReadyType::Writable => self.waiter_writable.is_some(),
            ReadyType::Error => self.waiter_error.is_some(),
            ReadyType::Hup => self.waiter_hup.is_some(),
        };
        r
    }

    /// Called on a blocked I/O path by the coroutine owning this
    /// registration. If `kind` is latched, consume the bit and return the
    /// caller's handle at once; otherwise park the handle in the `kind`
    /// waiter slot. In the running system the park path re-checks the mask
    /// under the lock before installing the waiter, which closes the race
    /// with a concurrent `notify`; here the two checks are one critical
    /// section.
    pub fn wait(&mut self, kind: ReadyType, current: Handle) -> (r: WaitOutcome)
        requires
            old(self)@.wf(),
            !old(self)@.waiters.dom().contains(kind),
        ensures
            final(self)@ == old(self)@.after_wait(kind, current@),
            final(self)@.wf(),
            old(self)@.wait_is_immediate(kind)
                ==> (r matches WaitOutcome::Immediate(h) && h@ == current@),
            !old(self)@.wait_is_immediate(kind) ==> r is Parked,
    {
        let ghost s0 = self@;
        if self.mask.contains(kind) {
            self.mask = self.mask.remove(kind);
            proof {
                assert_sets_equal!(self@.latched, s0.after_wait(kind, current@).latched);
                assert_maps_equal!(self@.waiters, s0.after_wait(kind, current@).waiters);
            }
            WaitOutcome::Immediate(current)
        } else {
            self.set_waiter(kind, current);
            proof {
                assert_maps_equal!(self@.waiters, s0.after_wait(kind, current@).waiters);
                assert_sets_equal!(self@.latched, s0.after_wait(kind, current@).latched);
            }
            WaitOutcome::Parked
        }
    }

    /// Latch `kind` unconditionally, promising the caller that the next
    /// `wait(kind)` returns immediately. Only the coroutine owning the
    /// registration calls this, so no waiter can be parked on `kind`.
    pub fn make_ready(&mut self, kind: ReadyType)
        requires
            old(self)@.wf(),
            !old(self)@.waiters.dom().contains(kind),
        ensures
            final(self)@ == old(self)@.after_make_ready(kind),
            final(self)@.wf(),
    {
        let ghost s0 = self@;
        self.mask = self.mask.insert(kind);
        proof {
            assert_sets_equal!(self@.latched, s0.after_make_ready(kind).latched);
            assert_maps_equal!(self@.waiters, s0.after_make_ready(kind).waiters);
        }
    }

    /// Called by the reactor on kernel readiness. Per kind in `events`:
    /// take the parked waiter if the slot is occupied, else latch the bit.
    /// The returned list holds the 0 to 4 handles to dispatch, in fixed
    /// kind order; each leaves its slot, so no handle gains a second owner.
    pub fn notify(&mut self, events: EventMask) -> (delivered: HandleList)
        requires
            old(self)@.wf(),
        ensures
            final(self)@ == old(self)@.after_notify(events@),
            delivered@ == old(self)@.notify_delivered(events@),
            final(self)@.wf(),
    {
        let ghost s0 = self@;
        let mut delivered = HandleList::new();
        self.notify_one(events, ReadyType::Readable, &mut delivered);
        let ghost s1 = self@;
        self.notify_one(events, ReadyType::Writable, &mut delivered);
        let ghost s2 = self@;
        self.notify_one(events, ReadyType::Error, &mut delivered);
        let ghost s3 = self@;
        self.notify_one(events, ReadyType::Hup, &mut delivered);
        proof {
            assert(s1.delivered_one(events@, ReadyType::Writable)
                == s0.delivered_one(events@, ReadyType::Writable));
            assert(s2.delivered_one(events@, ReadyType::Error)
                == s0.delivered_one(events@, ReadyType::Error));
            assert(s3.delivered_one(events@, ReadyType::Hup)
                == s0.delivered_one(events@, ReadyType::Hup));
            assert(delivered@ =~= s0.notify_delivered(events@));
            assert_sets_equal!(self@.latched, s0.after_notify(events@).latched);
            assert_maps_equal!(self@.waiters, s0.after_notify(events@).waiters);
        }
        delivered
    }

    /// One step of `notify`, handling the single kind `k`: take the
    /// parked waiter if present, else latch the bit, and append what was
    /// delivered for `k` to `delivered`.
    fn notify_one(&mut self, events: EventMask, k: ReadyType, delivered: &mut HandleList)
        ensures
            final(delivered)@ == old(delivered)@ + old(self)@.delivered_one(events@, k),
            !events@.contains(k) ==> final(self)@ == old(self)@,
            events@.contains(k) && old(self)@.waiters.dom().contains(k) ==> {
                &&& final(self)@.latched == old(self)@.latched
                &&& final(self)@.waiters == old(self)@.waiters.remove(k)
            },
            events@.contains(k) && !old(self)@.waiters.dom().contains(k) ==> {
                &&& final(self)@.latched == old(self)@.latched.insert(k)
                &&& final(self)@.waiters == old(self)@.waiters
            },
    {
        let ghost s0 = self@;
        let ghost d0 = delivered@;
        if events.contains(k) {
            match self.take_waiter(k) {
                Some(h) => {
                    delivered.push_back(h);
                    proof {
                        assert(delivered@ =~= d0 + s0.delivered_one(events@, k));
                    }
                }
                None => {
                    let ghost mid = *self;
                    self.mask = self.mask.insert(k);
                    proof {
                        assert(forall|j: ReadyType| self.waiter_spec(j) == mid.waiter_spec(j));
                        assert_maps_equal!(self@.waiters, mid@.waiters);
                        assert(mid@.waiters =~= s0.waiters.remove(k));
                        assert_maps_equal!(self@.waiters, s0.waiters);
                        assert_sets_equal!(self@.latched, s0.latched.insert(k));
                        assert(delivered@ =~= d0 + s0.delivered_one(events@, k));
                    }
                }
            }
        } else {
            proof {
                assert(delivered@ =~= d0 + s0.delivered_one(events@, k));
            }
        }
    }

    /// Empty the `k` waiter slot, returning the parked handle if any.
    fn take_waiter(&mut self, k: ReadyType) -> (r: Option<Handle>)
        ensures
            match r {
                Some(h) => old(self)@.waiters.dom().contains(k)
                    && h@ == old(self)@.waiters[k],
                None => !old(self)@.waiters.dom().contains(k),
            },
            final(self)@.latched == old(self)@.latched,
            final(self)@.waiters =~= old(self)@.waiters.remove(k),
    {
        let r = match k {
            ReadyType::Readable => self.waiter_readable.take(),
            ReadyType::Writable => self.waiter_writable.take(),
            ReadyType::Error => self.waiter_error.take(),
            ReadyType::Hup => self.waiter_hup.take(),
        };
        proof {
            assert_maps_equal!(self@.waiters, old(self)@.waiters.remove(k));
        }
        r
    }

    /// Install `h` in the `k` waiter slot.
    fn set_waiter(&mut self, k: ReadyType, h: Handle)
        requires
            !old(self)@.waiters.dom().contains(k),
        ensures
            final(self)@.latched == old(self)@.latched,
            final(self)@.waiters =~= old(self)@.waiters.insert(k, h@),
    {
        match k {
            ReadyType::Readable => self.waiter_readable = Some(h),
            ReadyType::Writable => self.waiter_writable = Some(h),
            ReadyType::Error => self.waiter_error = Some(h),
            ReadyType::Hup => self.waiter_hup = Some(h),
        }
        proof {
            assert_maps_equal!(self@.waiters, old(self)@.waiters.insert(k, h@));
        }
    }
}

/// After `make_ready(kind)` on a latch whose `kind` slot is empty, the
/// next `wait(kind)` on the same latch returns without parking, and
/// consuming the bit brings the latch back to where it stood.
pub proof fn lemma_make_ready_then_wait_immediate(s: LatchState, k: ReadyType, w: u64)
    requires
        s.wf(),
        !s.waiters.dom().contains(k),
    ensures
        s.after_make_ready(k).wf(),
        s.after_make_ready(k).wait_is_immediate(k),
        s.after_make_ready(k).after_wait(k, w).latched =~= s.latched.remove(k),
        s.after_make_ready(k).after_wait(k, w).waiters == s.waiters,
{
    assert_sets_equal!(s.after_make_ready(k).after_wait(k, w).latched, s.latched.remove(k));
}

/// When `kind` is already latched, `make_ready(kind)` is a no-op: the
/// latch is bitwise the same afterwards, so `make_ready(kind); wait(kind)`
/// is observationally equivalent to `wait(kind)` alone.
pub proof fn lemma_make_ready_idempotent(s: LatchState, k: ReadyType)
    requires
        s.latched.contains(k),
    ensures
        s.after_make_ready(k).latched =~= s.latched,
        s.after_make_ready(k).waiters == s.waiters,
{
    assert_sets_equal!(s.after_make_ready(k).latched, s.latched);
}

/// Every parked coroutine keeps exactly one holder through `notify`:
/// with all parked identifiers distinct, each kind in `events` with an
/// occupied slot is delivered exactly once and its slot emptied, no
/// identifier appears twice in the delivery, and a slot outside
/// `events` keeps its waiter untouched. A delivered handle has left the
/// latch before it is enqueued downstream, so no two holders ever name
/// the same coroutine.
pub proof fn lemma_notify_single_holder(s: LatchState, events: Set<ReadyType>)
    requires
        s.wf(),
        forall|j: ReadyType, k: ReadyType|
            j != k && s.waiters.dom().contains(j) && s.waiters.dom().contains(k)
                ==> s.waiters[j] != s.waiters[k],
    ensures
        forall|k: ReadyType| events.contains(k) && s.waiters.dom().contains(k)
            ==> s.notify_delivered(events).contains(#[trigger] s.waiters[k])
                && !s.after_notify(events).waiters.dom().contains(k),
        forall|i: int, j: int|
            0 <= i < j < s.notify_delivered(events).len()
                ==> s.notify_delivered(events)[i] != s.notify_delivered(events)[j],
        forall|k: ReadyType| !events.contains(k) && s.waiters.dom().contains(k)
            ==> s.after_notify(events).waiters.dom().contains(k)
                && s.after_notify(events).waiters[k] == s.waiters[k],
{
    let a = s.delivered_one(events, ReadyType::Readable);
    let b = s.delivered_one(events, ReadyType::Writable);
    let c = s.delivered_one(events, ReadyType::Error);
    let d = s.delivered_one(events, ReadyType::Hup);
    let nd = s.notify_delivered(events);
    assert(nd == a + b + c + d);
    assert forall|k: ReadyType| events.contains(k) && s.waiters.dom().contains(k)
        implies nd.contains(#[trigger] s.waiters[k])
            && !s.after_notify(events).waiters.dom().contains(k) by {
        match k {
            ReadyType::Readable => { assert(nd[0] == s.waiters[k]); }
            ReadyType::Writable => { assert(nd[a.len() as int] == s.waiters[k]); }
            ReadyType::Error => { assert(nd[(a.len() + b.len()) as int] == s.waiters[k]); }
            ReadyType::Hup => { assert(nd[(a.len() + b.len() + c.len()) as int] == s.waiters[k]); }
        }
    }
    let ghost owner = |i: int| -> ReadyType {
        if i < a.len() {
            ReadyType::Readable
        } else if i < a.len() + b.len() {
            ReadyType::Writable
        } else if i < a.len() + b.len() + c.len() {
            ReadyType::Error
        } else {
            ReadyType::Hup
        }
    };
    assert forall|i: int| 0 <= i < nd.len()
        implies s.waiters.dom().contains(owner(i)) && nd[i] == s.waiters[owner(i)] by {
        assert(a.len() <= 1 && b.len() <= 1 && c.len() <= 1 && d.len() <= 1);
    }
    assert forall|i: int, j: int| 0 <= i < j < nd.len() implies nd[i] != nd[j] by {
        assert(a.len() <= 1 && b.len() <= 1 && c.len() <= 1 && d.len() <= 1);
        assert(owner(i) != owner(j));
        assert(nd[i] == s.waiters[owner(i)] && nd[j] == s.waiters[owner(j)]);
    }
}

/// A `wait(kind)` racing a `notify(events)` with `kind` in `events`
/// linearizes under the latch's lock: whichever order the lock grants,
/// exactly one side releases the waiting coroutine — either `notify`
/// delivers the parked handle (wait went first and parked), or `wait`
/// consumes the latched bit (notify went first) — never both and never
/// neither, and both orders leave the latch in the same state.
pub proof fn lemma_wait_notify_linearize(s: LatchState, k: ReadyType, w: u64, events: Set<ReadyType>)
    requires
        s.wf(),
        !s.latched.contains(k),
        !s.waiters.dom().contains(k),
        events.contains(k),
        forall|j: ReadyType| s.waiters.dom().contains(j) ==> s.waiters[j] != w,
    ensures
        // wait first: it parks, and the following notify delivers w
        !s.wait_is_immediate(k),
        s.after_wait(k, w).notify_delivered(events).contains(w),
        // notify first: it cannot deliver w, and the following wait
        // consumes the freshly latched bit without parking
        !s.notify_delivered(events).contains(w),
        s.after_notify(events).wait_is_immediate(k),
        // both orders end in the same latch state
        s.after_wait(k, w).after_notify(events).latched
            =~= s.after_notify(events).after_wait(k, w).latched,
        s.after_wait(k, w).after_notify(events).waiters
            =~= s.after_notify(events).after_wait(k, w).waiters,
{
    let parked = s.after_wait(k, w);
    let d = parked.notify_delivered(events);
    assert(parked.waiters.dom().contains(k) && parked.waiters[k] == w);
    assert(parked.delivered_one(events, k) == seq![w]);
    match k {
        ReadyType::Readable => { assert(d[0] == w); }
        ReadyType::Writable => {
            assert(parked.delivered_one(events, ReadyType::Readable).len()
                + parked.delivered_one(events, ReadyType::Writable).len() <= 2);
            assert(d[parked.delivered_one(events, ReadyType::Readable).len() as int] == w);
        }
        ReadyType::Error => {
            assert(d[(parked.delivered_one(events, ReadyType::Readable).len()
                + parked.delivered_one(events, ReadyType::Writable).len()) as int] == w);
        }
        ReadyType::Hup => {
            assert(d[(parked.delivered_one(events, ReadyType::Readable).len()
                + parked.delivered_one(events, ReadyType::Writable).len()
                + parked.delivered_one(events, ReadyType::Error).len()) as int] == w);
        }
    }
    let nd = s.notify_delivered(events);
    assert forall|i: int| 0 <= i < nd.len() implies nd[i] != w by {
        assert(nd =~= s.delivered_one(events, ReadyType::Readable)
            + s.delivered_one(events, ReadyType::Writable)
            + s.delivered_one(events, ReadyType::Error)
            + s.delivered_one(events, ReadyType::Hup));
    }
    assert_sets_equal!(
        s.after_wait(k, w).after_notify(events).latched,
        s.after_notify(events).after_wait(k, w).latched
    );
    assert_maps_equal!(
        s.after_wait(k, w).after_notify(events).waiters,
        s.after_notify(events).after_wait(k, w).waiters
    );
}

} // verus!
