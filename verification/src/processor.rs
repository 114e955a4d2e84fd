//! The worker: it runs coroutines on one OS thread, keeps a bounded
//! local FIFO run queue, steals from peers when that runs dry, refills
//! from the global queue, and parks when nothing is left.
//!
//! The schedule loop itself performs context switches and condition
//! variable waits; each of its decisions and queue movements is a
//! function here.

use vstd::prelude::*;
use crate::QUEUE_SIZE;
use crate::handle::Handle;
use crate::handle::HandleList;
use crate::scheduler::JoinHandle;
use crate::scheduler::Options;
use crate::scheduler::Scheduler;
use crate::scheduler::unpark_count;
use crate::scheduler::wake_quota;

verus! {

/// A worker. `current` holds the one running coroutine, the local queue
/// at most `QUEUE_SIZE` ready ones, oldest first.
pub struct Processor {
    pub id: usize,
    pub local_queue: HandleList,
    pub current: Option<Handle>,
}

/// What making a coroutine ready on a worker does: the handle lands at
/// the local tail. A full queue first overflows its older half to the
/// global queue — newest work stays local — with the global size cache
/// kept exact and the policy-computed number of workers woken.
pub open spec fn ready_transition(
    pre_p: Processor,
    post_p: Processor,
    pre_s: Scheduler,
    post_s: Scheduler,
    coro_id: u64,
    woken: int,
) -> bool {
    &&& pre_p.local_queue@.len() < QUEUE_SIZE ==> {
        &&& post_p.local_queue@ == pre_p.local_queue@.push(coro_id)
        &&& post_s == pre_s
        &&& woken == 0
    }
    &&& pre_p.local_queue@.len() >= QUEUE_SIZE ==> {
        &&& post_p.local_queue@
            == pre_p.local_queue@.skip((QUEUE_SIZE / 2) as int).push(coro_id)
        &&& post_s.global_queue@
            == pre_s.global_queue@ + pre_p.local_queue@.take((QUEUE_SIZE / 2) as int)
        &&& woken == unpark_count(
            pre_s.idle_processor_count,
            pre_s.spinning_processor_count,
            wake_quota(pre_s.global_queue@.len() + (QUEUE_SIZE / 2) as int),
        )
        &&& post_s == (Scheduler {
            global_queue: post_s.global_queue,
            global_queue_size: post_s.global_queue_size,
            ..pre_s
        })
    }
    &&& post_p == (Processor { local_queue: post_p.local_queue, ..pre_p })
}

/// Splitting a queue conserves its handles: the front taken by a thief
/// (or mover) and the remainder together hold exactly the identifiers
/// the queue held, none lost, none duplicated. This covers stealing,
/// refilling from the global queue, and the overflow of a full local
/// queue.
pub proof fn lemma_split_conserves_handles(s: Seq<u64>, n: int)
    requires
        0 <= n <= s.len(),
    ensures
        s.take(n).to_multiset().add(s.skip(n).to_multiset()) =~= s.to_multiset(),
{
    assert(s =~= s.take(n) + s.skip(n));
    vstd::seq_lib::lemma_multiset_commutative(s.take(n), s.skip(n));
}

/// Making a coroutine ready conserves handles: over the local and
/// global queues together, the multiset of held identifiers grows by
/// exactly the coroutine made ready, whether or not the local queue
/// overflowed. With every queue movement conserving handles this way,
/// M spawns yield exactly M results on any number of workers.
pub proof fn lemma_ready_conserves_handles(
    pre_p: Processor,
    post_p: Processor,
    pre_s: Scheduler,
    post_s: Scheduler,
    coro_id: u64,
    woken: int,
)
    requires
        ready_transition(pre_p, post_p, pre_s, post_s, coro_id, woken),
    ensures
        post_p.local_queue@.to_multiset().add(post_s.global_queue@.to_multiset())
            =~= pre_p.local_queue@.to_multiset()
                .add(pre_s.global_queue@.to_multiset()).insert(coro_id),
{
    broadcast use vstd::seq_lib::group_to_multiset_ensures;
    broadcast use vstd::multiset::group_multiset_axioms;

    let l = pre_p.local_queue@;
    if l.len() < QUEUE_SIZE {
        assert(post_p.local_queue@.to_multiset() =~= l.to_multiset().insert(coro_id));
    } else {
        let half = (QUEUE_SIZE / 2) as int;
        assert(post_p.local_queue@.to_multiset()
            =~= l.skip(half).to_multiset().insert(coro_id));
        vstd::seq_lib::lemma_multiset_commutative(pre_s.global_queue@, l.take(half));
        lemma_split_conserves_handles(l, half);
    }
}

/// Within one worker the run queue is FIFO: a coroutine that becomes
/// ready — a voluntary yield among them — goes to the tail, behind
/// every coroutine already queued, each of which is picked first.
/// Across workers no such order is promised.
pub proof fn lemma_local_queue_fifo(
    pre_p: Processor,
    post_p: Processor,
    pre_s: Scheduler,
    post_s: Scheduler,
    coro_id: u64,
    woken: int,
)
    requires
        ready_transition(pre_p, post_p, pre_s, post_s, coro_id, woken),
        pre_p.local_queue@.len() < QUEUE_SIZE,
    ensures
        post_p.local_queue@.last() == coro_id,
        forall|i: int| 0 <= i < pre_p.local_queue@.len()
            ==> post_p.local_queue@[i] == pre_p.local_queue@[i],
{
}

/// Why no two live handles ever carry one identifier: the scheduler
/// mints them from a strictly increasing counter, so whenever every
/// identifier held anywhere lies below the counter, the next minted one
/// is held nowhere. Together with `Handle` being neither `Clone` nor
/// `Copy`, every coroutine has exactly one owning handle.
pub proof fn lemma_minted_id_is_fresh(next_coroutine_id: u64, held: Set<u64>)
    requires
        forall|i: u64| held.contains(i) ==> i < next_coroutine_id,
    ensures
        !held.contains(next_coroutine_id),
{
}

impl Processor {
    /// The local queue never exceeds its fixed capacity.
    pub open spec fn wf(self) -> bool {
        self.local_queue@.len() <= QUEUE_SIZE
    }

    pub fn new(id: usize) -> (r: Processor)
        ensures
            r.id == id,
            r.local_queue@ == Seq::<u64>::empty(),
            r.current is None,
            r.wf(),
    {
        Processor { id, local_queue: HandleList::new(), current: None }
    }

    /// Make a coroutine ready on this worker.
    pub fn ready(&mut self, sched: &mut Scheduler, coro: Handle) -> (woken: usize)
        requires
            old(self).wf(),
            old(sched).queue_size_consistent(),
        ensures
            final(self).wf(),
            final(sched).queue_size_consistent(),
            ready_transition(
                *old(self), *final(self), *old(sched), *final(sched), coro@, woken as int),
    {
        if self.local_queue.len() >= QUEUE_SIZE {
            let front = self.local_queue.split_front(QUEUE_SIZE / 2);
            let woken = sched.push_global_queue_iter(front);
            self.local_queue.push_back(coro);
            woken
        } else {
            self.local_queue.push_back(coro);
            0
        }
    }

    /// Spawn a coroutine with the given options onto this worker — the
    /// spawner's worker, for locality. Mints the next identifier, makes
    /// the new coroutine ready, and returns the join handle naming it
    /// together with the number of workers the ready path woke. The
    /// options travel to the stack allocator, which sits outside this
    /// model; the aggregate stack-memory ceiling is advertised, not
    /// enforced.
    pub fn spawn_opts(&mut self, sched: &mut Scheduler, opts: Options) -> (r: (JoinHandle, usize))
        requires
            old(self).wf(),
            old(sched).queue_size_consistent(),
            old(sched).next_coroutine_id < u64::MAX,
        ensures
            final(self).wf(),
            final(sched).queue_size_consistent(),
            r.0.coro_id == old(sched).next_coroutine_id,
            final(sched).next_coroutine_id == old(sched).next_coroutine_id + 1,
            ready_transition(
                *old(self),
                *final(self),
                (Scheduler {
                    next_coroutine_id: (old(sched).next_coroutine_id + 1) as u64,
                    ..*old(sched)
                }),
                *final(sched),
                old(sched).next_coroutine_id,
                r.1 as int,
            ),
    {
        let id = sched.next_coroutine_id;
        sched.next_coroutine_id = id + 1;
        let coro = Handle::new(id);
        let woken = self.ready(sched, coro);
        (JoinHandle { coro_id: id }, woken)
    }

    /// Spawn with the scheduler's default options.
    pub fn spawn(&mut self, sched: &mut Scheduler) -> (r: (JoinHandle, usize))
        requires
            old(self).wf(),
            old(sched).queue_size_consistent(),
            old(sched).next_coroutine_id < u64::MAX,
        ensures
            final(self).wf(),
            final(sched).queue_size_consistent(),
            r.0.coro_id == old(sched).next_coroutine_id,
            final(sched).next_coroutine_id == old(sched).next_coroutine_id + 1,
            ready_transition(
                *old(self),
                *final(self),
                (Scheduler {
                    next_coroutine_id: (old(sched).next_coroutine_id + 1) as u64,
                    ..*old(sched)
                }),
                *final(sched),
                old(sched).next_coroutine_id,
                r.1 as int,
            ),
    {
        let opts = sched.default_spawn_options;
        self.spawn_opts(sched, opts)
    }

    /// Voluntary yield: the current coroutine re-enqueues at the local
    /// tail and control returns to the schedule loop, so it runs again
    /// no earlier than anything already queued here (local FIFO).
    pub fn sched(&mut self, sched: &mut Scheduler) -> (woken: usize)
        requires
            old(self).wf(),
            old(self).current is Some,
            old(sched).queue_size_consistent(),
        ensures
            final(self).wf(),
            final(sched).queue_size_consistent(),
            final(self).current is None,
            ready_transition(
                (Processor { current: None, ..*old(self) }),
                *final(self),
                *old(sched),
                *final(sched),
                (old(self).current->Some_0)@,
                woken as int,
            ),
    {
        let coro = match self.current.take() {
            Some(c) => c,
            None => unreached(),
        };
        self.ready(sched, coro)
    }

    /// The single suspension primitive: surrender the running
    /// coroutine's handle to the caller. Until the caller places it in
    /// exactly one holder — a waiter slot, a timer entry, a message —
    /// or destroys it, the handle is in flight and owned by no queue.
    pub fn park_with(&mut self) -> (coro: Handle)
        requires
            old(self).current is Some,
        ensures
            coro == old(self).current->Some_0,
            *final(self) == (Processor { current: None, ..*old(self) }),
    {
        match self.current.take() {
            Some(c) => c,
            None => unreached(),
        }
    }

    /// First step of the schedule loop: install the head of the local
    /// queue as the running coroutine.
    pub fn pick_next(&mut self) -> (found: bool)
        requires
            old(self).current is None,
        ensures
            found == (old(self).local_queue@.len() > 0),
            !found ==> {
                &&& final(self).local_queue@ == old(self).local_queue@
                &&& *final(self) == (Processor {
                    local_queue: final(self).local_queue,
                    ..*old(self)
                })
            },
            found ==> {
                &&& (final(self).current matches Some(h) && h@ == old(self).local_queue@[0])
                &&& final(self).local_queue@ == old(self).local_queue@.skip(1)
                &&& *final(self) == (Processor {
                    current: final(self).current,
                    local_queue: final(self).local_queue,
                    ..*old(self)
                })
            },
    {
        match self.local_queue.pop_front() {
            Some(h) => {
                proof {
                    assert(self.local_queue@
                        =~= old(self).local_queue@.skip(1));
                }
                self.current = Some(h);
                true
            }
            None => false,
        }
    }

    /// Second step: steal the older half of a peer's local queue,
    /// keeping its order. A worker steals only when out of work, so its
    /// own queue is empty and the haul fits.
    pub fn steal_half(&mut self, victim: &mut Processor) -> (stolen: usize)
        requires
            old(self).local_queue@.len() == 0,
            old(victim).wf(),
        ensures
            stolen == old(victim).local_queue@.len() / 2,
            final(self).local_queue@ == old(victim).local_queue@.take(stolen as int),
            final(victim).local_queue@ == old(victim).local_queue@.skip(stolen as int),
            final(self).wf(),
            final(victim).wf(),
            *final(self) == (Processor { local_queue: final(self).local_queue, ..*old(self) }),
            *final(victim) == (Processor {
                local_queue: final(victim).local_queue,
                ..*old(victim)
            }),
    {
        let n = victim.local_queue.len() / 2;
        let mut front = victim.local_queue.split_front(n);
        self.local_queue.append(&mut front);
        proof {
            assert(self.local_queue@
                =~= old(victim).local_queue@.take(n as int));
        }
        n
    }

    /// Third step: refill from the global queue, taking at most half the
    /// local capacity, and refresh the size cache.
    pub fn take_from_global(&mut self, sched: &mut Scheduler) -> (taken: usize)
        requires
            old(self).local_queue@.len() == 0,
            old(sched).queue_size_consistent(),
        ensures
            taken == if old(sched).global_queue@.len() < (QUEUE_SIZE / 2) as int {
                old(sched).global_queue@.len() as int
            } else {
                (QUEUE_SIZE / 2) as int
            },
            final(self).local_queue@ == old(sched).global_queue@.take(taken as int),
            final(sched).global_queue@ == old(sched).global_queue@.skip(taken as int),
            final(self).wf(),
            final(sched).queue_size_consistent(),
            *final(self) == (Processor { local_queue: final(self).local_queue, ..*old(self) }),
            *final(sched) == (Scheduler {
                global_queue: final(sched).global_queue,
                global_queue_size: final(sched).global_queue_size,
                ..*old(sched)
            }),
    {
        let global_len = sched.global_queue.len();
        let n = if global_len < QUEUE_SIZE / 2 { global_len } else { QUEUE_SIZE / 2 };
        let mut front = sched.global_queue.split_front(n);
        self.local_queue.append(&mut front);
        let size = sched.global_queue.len();
        sched.set_global_queue_size(size);
        proof {
            assert(self.local_queue@
                =~= old(sched).global_queue@.take(n as int));
        }
        n
    }
}

} // verus!
