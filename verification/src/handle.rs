//! Owning coroutine handles and the FIFO lists that carry them.

use vstd::prelude::*;
use std::collections::VecDeque;

verus! {

/// An opaque, movable owning reference to a coroutine.
///
/// The type deliberately implements neither `Clone` nor `Copy`: whichever
/// structure currently holds a `Handle` is the coroutine's single owner,
/// and ownership transfers only by moving the value. Two queues can
/// therefore never name the same coroutine at once.
pub struct Handle {
    id: u64,
}

impl View for Handle {
    type V = u64;

    closed spec fn view(&self) -> u64 {
        self.id
    }
}

impl Handle {
    /// Mint the handle of the coroutine with the given identifier.
    /// The scheduler issues identifiers from a strictly increasing counter,
    /// so no two live handles carry the same one.
    pub fn new(id: u64) -> (r: Handle)
        ensures
            r@ == id,
    {
        Handle { id }
    }

    /// The identifier of the coroutine this handle owns.
    pub fn id(&self) -> (r: u64)
        ensures
            r == self@,
    {
        self.id
    }
}

/// A FIFO of handles with O(1) push and O(1) splice.
///
/// The running system keeps intrusive links inside each coroutine's
/// control block so enqueue and dequeue allocate nothing; the model
/// uses a double-ended queue with the same interface and ordering
/// guarantees.
pub struct HandleList {
    items: VecDeque<Handle>,
}

impl View for HandleList {
    type V = Seq<u64>;

    closed spec fn view(&self) -> Seq<u64> {
        self.items@.map_values(|h: Handle| h@)
    }
}

impl HandleList {
    pub fn new() -> (r: HandleList)
        ensures
            r@ == Seq::<u64>::empty(),
    {
        let items = VecDeque::new();
        let r = HandleList { items };
        proof {
            assert(r@ =~= Seq::<u64>::empty());
        }
        r
    }

    pub fn len(&self) -> (r: usize)
        ensures
            r == self@.len(),
    {
        self.items.len()
    }

    pub fn is_empty(&self) -> (r: bool)
        ensures
            r == (self@.len() == 0),
    {
        self.items.len() == 0
    }

    /// Append one handle at the tail.
    pub fn push_back(&mut self, h: Handle)
        ensures
            final(self)@ == old(self)@.push(h@),
    {
        self.items.push_back(h);
        proof {
            assert(self@ =~= old(self)@.push(h@));
        }
    }

    /// Remove and return the head, or `None` when the list is empty.
    pub fn pop_front(&mut self) -> (r: Option<Handle>)
        ensures
            match r {
                Some(h) => {
                    &&& old(self)@.len() > 0
                    &&& h@ == old(self)@[0]
                    &&& final(self)@ == old(self)@.subrange(1, old(self)@.len() as int)
                },
                None => {
                    &&& old(self)@.len() == 0
                    &&& final(self)@ == old(self)@
                },
            },
    {
        let r = self.items.pop_front();
        proof {
            if old(self).items@.len() > 0 {
                assert(self@ =~= old(self)@.subrange(1, old(self)@.len() as int));
            } else {
                assert(self@ =~= old(self)@);
            }
        }
        r
    }

    /// Detach the first `n` handles into a new list, preserving order in
    /// both halves. No handle is duplicated or dropped.
    #[verifier::loop_isolation(false)]
    pub fn split_front(&mut self, n: usize) -> (front: HandleList)
        requires
            n <= old(self)@.len(),
        ensures
            front@ == old(self)@.take(n as int),
            final(self)@ == old(self)@.skip(n as int),
    {
        let mut front = HandleList::new();
        let mut i: usize = 0;
        proof {
            assert(front@ =~= old(self)@.take(0));
            assert(self@ =~= old(self)@.skip(0));
        }
        while i < n
            invariant
                i <= n,
                front@ == old(self)@.take(i as int),
                self@ == old(self)@.skip(i as int),
            decreases n - i,
        {
            let h = match self.pop_front() {
                Some(h) => h,
                None => unreached(),
            };
            front.push_back(h);
            i = i + 1;
            proof {
                assert(front@ =~= old(self)@.take(i as int));
                assert(self@ =~= old(self)@.skip(i as int));
            }
        }
        front
    }

    /// Splice the whole of `other` onto the tail of `self`, leaving
    /// `other` empty. No handle is duplicated or dropped.
    pub fn append(&mut self, other: &mut HandleList)
        ensures
            final(self)@ == old(self)@ + old(other)@,
            final(other)@ == Seq::<u64>::empty(),
    {
        self.items.append(&mut other.items);
        proof {
            assert(self@ =~= old(self)@ + old(other)@);
            assert(other@ =~= Seq::<u64>::empty());
        }
    }
}

} // verus!
