//! The coroutine scheduler: lifecycle configuration, the global run
//! queue with its atomic size cache, the idle-worker unpark policy, the
//! bounded message channel to the reactor, and the reactor's own state —
//! the token table of readiness latches and the timer entries.
//!
//! The running system spreads this state across worker threads and the
//! reactor thread; each function here is the logic of one linearized
//! step of it.

use vstd::prelude::*;
use vstd::map::*;
use slab::Slab;
use std::collections::VecDeque;
use crate::QUEUE_SIZE;
use crate::handle::Handle;
use crate::handle::HandleList;
use crate::ready_states::EventMask;
use crate::ready_states::ReadyStates;
use crate::slab_store::empty_latch_table;
use crate::slab_store::slab_entries;
use crate::slab_store::slab_put;
use crate::slab_store::slab_take;
use crate::slab_store::slab_vacant_key;
use crate::slab_store::slab_with_capacity;

verus! {

/// Default coroutine stack size, in bytes.
pub const DEFAULT_STACK_SIZE: usize = 2 * 1024 * 1024;

/// Ceiling on the aggregate stack memory of live coroutines, in bytes.
pub const MAXIMUM_STACK_MEMORY_LIMIT: u64 = 2 * 1024 * 1024 * 1024;

/// Capacity of the bounded message channel into the reactor.
pub const REACTOR_CHANNEL_CAPACITY: usize = 4096;

/// Spawn configuration: what the core reads of the configuration bag.
#[derive(Clone, Copy, PartialEq, Eq, Structural, Debug)]
pub struct Options {
    pub stack_size: usize,
}

impl Default for Options {
    fn default() -> (r: Options)
        ensures
            r.stack_size == DEFAULT_STACK_SIZE,
    {
        Options { stack_size: DEFAULT_STACK_SIZE }
    }
}

impl Options {
    /// Set the stack size for coroutines spawned with these options.
    pub fn stack_size(&mut self, size: usize)
        ensures
            *final(self) == (Options { stack_size: size }),
    {
        self.stack_size = size;
    }
}

/// Ask the reactor to register a descriptor; carries the requesting
/// coroutine, parked until the reactor answers.
pub struct RegisterMessage {
    pub coro: Handle,
}

impl RegisterMessage {
    pub fn new(coro: Handle) -> (r: RegisterMessage)
        ensures
            r.coro@ == coro@,
    {
        RegisterMessage { coro }
    }
}

/// Ask the reactor to drop the registration under `token`; carries the
/// requesting coroutine, parked until the reactor answers.
pub struct DeregisterMessage {
    pub coro: Handle,
    pub token: usize,
}

impl DeregisterMessage {
    pub fn new(coro: Handle, token: usize) -> (r: DeregisterMessage)
        ensures
            r.coro@ == coro@,
            r.token == token,
    {
        DeregisterMessage { coro, token }
    }
}

/// Ask the reactor to hold the coroutine for `delay` milliseconds.
pub struct TimerMessage {
    pub coro: Handle,
    pub delay: u64,
}

impl TimerMessage {
    pub fn new(coro: Handle, delay: u64) -> (r: TimerMessage)
        ensures
            r.coro@ == coro@,
            r.delay == delay,
    {
        TimerMessage { coro, delay }
    }
}

/// A control message from a worker to the reactor.
pub enum Message {
    Register(RegisterMessage),
    Deregister(DeregisterMessage),
    Timer(TimerMessage),
    Shutdown,
}

/// The bounded channel from workers into the reactor.
pub struct MessageQueue {
    items: VecDeque<Message>,
    capacity: usize,
}

impl View for MessageQueue {
    type V = Seq<Message>;

    closed spec fn view(&self) -> Seq<Message> {
        self.items@
    }
}

impl MessageQueue {
    pub closed spec fn capacity_spec(&self) -> usize {
        self.capacity
    }

    pub fn new(capacity: usize) -> (r: MessageQueue)
        ensures
            r@ == Seq::<Message>::empty(),
            r.capacity_spec() == capacity,
    {
        MessageQueue { items: VecDeque::new(), capacity }
    }

    pub fn len(&self) -> (r: usize)
        ensures
            r == self@.len(),
    {
        self.items.len()
    }

    /// One send attempt. A full channel hands the message back intact,
    /// so a producer that retries the returned message until acceptance
    /// loses nothing and keeps its own messages in order; back-pressure,
    /// not an error.
    pub fn try_send(&mut self, msg: Message) -> (r: Option<Message>)
        ensures
            old(self)@.len() < old(self).capacity_spec() ==> {
                &&& r is None
                &&& final(self)@ == old(self)@.push(msg)
            },
            old(self)@.len() >= old(self).capacity_spec() ==> {
                &&& (r matches Some(m) && m == msg)
                &&& final(self)@ == old(self)@
                &&& final(self).capacity_spec() == old(self).capacity_spec()
            },
            final(self).capacity_spec() == old(self).capacity_spec(),
    {
        if self.items.len() < self.capacity {
            self.items.push_back(msg);
            None
        } else {
            Some(msg)
        }
    }

    /// The reactor's receive: pop the oldest message, if any.
    pub fn recv(&mut self) -> (r: Option<Message>)
        ensures
            match r {
                Some(m) => {
                    &&& old(self)@.len() > 0
                    &&& m == old(self)@[0]
                    &&& final(self)@ == old(self)@.subrange(1, old(self)@.len() as int)
                },
                None => {
                    &&& old(self)@.len() == 0
                    &&& final(self)@ == old(self)@
                },
            },
            final(self).capacity_spec() == old(self).capacity_spec(),
    {
        self.items.pop_front()
    }
}

/// One installed timer: the coroutine is owned by this entry until the
/// reactor tick at which `fire_at` has passed.
pub struct TimerEntry {
    pub fire_at: u64,
    pub coro: Handle,
}

/// A finished coroutine's identifier and outcome, as delivered to the
/// join channel: its value, or — when its entry panicked and the panic
/// was caught at the coroutine boundary — the panic payload, to be
/// re-raised in the joiner.
#[derive(Clone, Copy, PartialEq, Eq, Structural, Debug)]
pub struct FinishedEntry {
    pub id: u64,
    pub value: u64,
    pub panicked: bool,
}

/// How many parked workers to wake after the global queue grew to
/// `size`: one, plus one per half local-queue-capacity of backlog.
pub open spec fn wake_quota(size: int) -> int {
    size / (QUEUE_SIZE as int / 2) + 1
}

/// The unpark policy: wake up to `max` workers, but none when none is
/// idle, and none when a worker is already spinning in search of work.
pub open spec fn unpark_count(idle: usize, spinning: usize, max: int) -> int {
    if max > 0 && idle > 0 && spinning == 0 {
        if (idle as int) < max { idle as int } else { max }
    } else {
        0
    }
}

/// The coroutine scheduler.
pub struct Scheduler {
    pub default_spawn_options: Options,
    pub expected_worker_count: usize,
    pub maximum_stack_memory_limit: u64,

    /// Reactor-owned: the token table of readiness latches.
    pub slab: Slab<ReadyStates>,
    /// Reactor-owned: the installed timers.
    pub timers: Vec<TimerEntry>,
    /// The bounded inbound channel of the reactor.
    pub reactor_channel: MessageQueue,
    /// Whether the reactor loop keeps running; cleared by Shutdown.
    pub reactor_running: bool,

    pub idle_processor_count: usize,
    /// The flag under the idle mutex; set at shutdown so that no worker
    /// blocks again.
    pub idle_wakeup_flag: bool,
    pub is_shutting_down: bool,
    pub spinning_processor_count: usize,

    pub global_queue_size: usize,
    pub global_queue: HandleList,
    pub io_handler_queue: HandleList,

    /// Issue counter for coroutine identifiers; strictly increasing, so
    /// all live handles carry distinct identifiers.
    pub next_coroutine_id: u64,
    /// The join channels' contents: results of finished coroutines.
    pub finished: Vec<FinishedEntry>,
}

impl Scheduler {
    /// The reactor's token table, as a map from token to latch.
    pub open spec fn entries(self) -> Map<usize, ReadyStates> {
        slab_entries(self.slab)
    }

    /// The atomic size cache mirrors the mutex-protected queue length.
    pub open spec fn queue_size_consistent(self) -> bool {
        self.global_queue_size == self.global_queue@.len()
    }

    /// Every latch in the token table is well-formed.
    pub open spec fn latches_wf(self) -> bool {
        forall|t: usize| self.entries().dom().contains(t) ==> (#[trigger] self.entries()[t])@.wf()
    }

    pub open spec fn wf(self) -> bool {
        self.queue_size_consistent() && self.latches_wf()
    }

    /// Create a scheduler with default configuration.
    pub fn new() -> (r: Scheduler)
        ensures
            r.wf(),
            r.default_spawn_options.stack_size == DEFAULT_STACK_SIZE,
            r.expected_worker_count == 1,
            r.maximum_stack_memory_limit == MAXIMUM_STACK_MEMORY_LIMIT,
            r.entries() == empty_latch_table(),
            r.timers@ == Seq::<TimerEntry>::empty(),
            r.reactor_channel@ == Seq::<Message>::empty(),
            r.reactor_channel.capacity_spec() == REACTOR_CHANNEL_CAPACITY,
            r.reactor_running,
            r.idle_processor_count == 0,
            !r.idle_wakeup_flag,
            !r.is_shutting_down,
            r.spinning_processor_count == 0,
            r.global_queue_size == 0,
            r.global_queue@ == Seq::<u64>::empty(),
            r.io_handler_queue@ == Seq::<u64>::empty(),
            r.next_coroutine_id == 0,
            r.finished@ == Seq::<FinishedEntry>::empty(),
    {
        Scheduler {
            default_spawn_options: Options { stack_size: DEFAULT_STACK_SIZE },
            expected_worker_count: 1,
            maximum_stack_memory_limit: MAXIMUM_STACK_MEMORY_LIMIT,
            slab: slab_with_capacity(1024),
            timers: Vec::new(),
            reactor_channel: MessageQueue::new(REACTOR_CHANNEL_CAPACITY),
            reactor_running: true,
            idle_processor_count: 0,
            idle_wakeup_flag: false,
            is_shutting_down: false,
            spinning_processor_count: 0,
            global_queue_size: 0,
            global_queue: HandleList::new(),
            io_handler_queue: HandleList::new(),
            next_coroutine_id: 0,
            finished: Vec::new(),
        }
    }

    /// Set the number of workers; at least one is required.
    pub fn with_workers(self, workers: usize) -> (r: Scheduler)
        requires
            workers >= 1,
        ensures
            r == (Scheduler { expected_worker_count: workers, ..self }),
    {
        let mut s = self;
        s.expected_worker_count = workers;
        s
    }

    /// Set the default stack size for spawned coroutines.
    pub fn default_stack_size(self, default_stack_size: usize) -> (r: Scheduler)
        ensures
            r == (Scheduler {
                default_spawn_options: (Options { stack_size: default_stack_size }),
                ..self
            }),
    {
        let mut s = self;
        s.default_spawn_options.stack_size(default_stack_size);
        s
    }

    /// Append one handle to the global queue, refresh the size cache,
    /// and report how many idle workers the unpark policy wakes for the
    /// new backlog.
    pub fn push_global_queue(&mut self, hdl: Handle) -> (woken: usize)
        requires
            old(self).queue_size_consistent(),
        ensures
            final(self).global_queue@ == old(self).global_queue@.push(hdl@),
            final(self).queue_size_consistent(),
            woken == unpark_count(
                old(self).idle_processor_count,
                old(self).spinning_processor_count,
                wake_quota(old(self).global_queue@.len() + 1 as int),
            ),
            *final(self) == (Scheduler {
                global_queue: final(self).global_queue,
                global_queue_size: final(self).global_queue_size,
                ..*old(self)
            }),
    {
        self.global_queue.push_back(hdl);
        let size = self.global_queue.len();
        self.set_global_queue_size(size);
        self.unpark_processors_with_queue_size(size)
    }

    /// Splice a list of handles onto the global queue, refresh the size
    /// cache, and report how many workers the unpark policy wakes.
    pub fn push_global_queue_iter(&mut self, hdls: HandleList) -> (woken: usize)
        requires
            old(self).queue_size_consistent(),
        ensures
            final(self).global_queue@ == old(self).global_queue@ + hdls@,
            final(self).queue_size_consistent(),
            woken == unpark_count(
                old(self).idle_processor_count,
                old(self).spinning_processor_count,
                wake_quota(old(self).global_queue@.len() + hdls@.len() as int),
            ),
            *final(self) == (Scheduler {
                global_queue: final(self).global_queue,
                global_queue_size: final(self).global_queue_size,
                ..*old(self)
            }),
    {
        let mut hdls = hdls;
        self.global_queue.append(&mut hdls);
        let size = self.global_queue.len();
        self.set_global_queue_size(size);
        self.unpark_processors_with_queue_size(size)
    }

    /// After a reactor tick: splice the reactor-local handoff queue into
    /// the global queue, refresh the size cache, and report how many
    /// workers to wake. A no-op when nothing was handed off.
    pub fn append_io_handler_to_global_queue(&mut self) -> (woken: usize)
        requires
            old(self).queue_size_consistent(),
        ensures
            final(self).global_queue@ == old(self).global_queue@ + old(self).io_handler_queue@,
            final(self).io_handler_queue@ == Seq::<u64>::empty(),
            final(self).queue_size_consistent(),
            woken == if old(self).io_handler_queue@.len() == 0 { 0int } else {
                unpark_count(
                    old(self).idle_processor_count,
                    old(self).spinning_processor_count,
                    wake_quota(old(self).global_queue@.len() + old(self).io_handler_queue@.len() as int),
                )
            },
            *final(self) == (Scheduler {
                global_queue: final(self).global_queue,
                global_queue_size: final(self).global_queue_size,
                io_handler_queue: final(self).io_handler_queue,
                ..*old(self)
            }),
    {
        if self.io_handler_queue.is_empty() {
            proof {
                assert(self.global_queue@ =~= self.global_queue@ + self.io_handler_queue@);
                assert(self.io_handler_queue@ =~= Seq::<u64>::empty());
            }
            return 0;
        }
        let mut moved = HandleList::new();
        std::mem::swap(&mut moved, &mut self.io_handler_queue);
        self.global_queue.append(&mut moved);
        let size = self.global_queue.len();
        self.set_global_queue_size(size);
        self.unpark_processors_with_queue_size(size)
    }

    /// Borrow the global queue, as taking its mutex does.
    pub fn get_global_queue(&self) -> (r: &HandleList)
        ensures
            r@ == self.global_queue@,
    {
        &self.global_queue
    }

    /// Read the lock-free size cache of the global queue.
    pub fn global_queue_size(&self) -> (r: usize)
        ensures
            r == self.global_queue_size,
    {
        self.global_queue_size
    }

    /// Store into the size cache of the global queue.
    pub fn set_global_queue_size(&mut self, size: usize)
        ensures
            *final(self) == (Scheduler { global_queue_size: size, ..*old(self) }),
    {
        self.global_queue_size = size;
    }

    /// A worker started seeking work.
    pub fn inc_spinning(&mut self)
        requires
            old(self).spinning_processor_count < usize::MAX,
        ensures
            *final(self) == (Scheduler {
                spinning_processor_count: (old(self).spinning_processor_count + 1) as usize,
                ..*old(self)
            }),
    {
        self.spinning_processor_count = self.spinning_processor_count + 1;
    }

    /// A worker stopped seeking work.
    pub fn dec_spinning(&mut self)
        requires
            old(self).spinning_processor_count > 0,
        ensures
            *final(self) == (Scheduler {
                spinning_processor_count: (old(self).spinning_processor_count - 1) as usize,
                ..*old(self)
            }),
    {
        self.spinning_processor_count = self.spinning_processor_count - 1;
    }

    /// The double-checked idle decision: a worker about to park blocks
    /// only while shutdown has not raised the wakeup flag and its final
    /// re-check (`before_wait`) still found no work. The idle count is
    /// raised for the duration of the block and lowered on wake, so it
    /// is unchanged when the call returns.
    pub fn park_processor(&self, before_wait: bool) -> (blocked: bool)
        ensures
            blocked == (!self.idle_wakeup_flag && before_wait),
    {
        !self.idle_wakeup_flag && before_wait
    }

    /// How many workers to wake after the global queue grew to `size`.
    pub fn unpark_processors_with_queue_size(&self, size: usize) -> (woken: usize)
        ensures
            woken == unpark_count(
                self.idle_processor_count,
                self.spinning_processor_count,
                wake_quota(size as int),
            ),
    {
        self.unpark_processor_maybe(size / (QUEUE_SIZE / 2) + 1)
    }

    /// The unpark policy: wake `max` workers at most, capped by the idle
    /// count, and none at all while some worker already spins for work.
    pub fn unpark_processor_maybe(&self, max: usize) -> (woken: usize)
        ensures
            woken == unpark_count(
                self.idle_processor_count,
                self.spinning_processor_count,
                max as int,
            ),
    {
        let idle_processor_count = self.idle_processor_count;
        if max > 0 && idle_processor_count > 0 && self.spinning_processor_count == 0 {
            if idle_processor_count < max {
                idle_processor_count
            } else {
                max
            }
        } else {
            0
        }
    }

    pub fn is_shutting_down(&self) -> (r: bool)
        ensures
            r == self.is_shutting_down,
    {
        self.is_shutting_down
    }
}

/// Timer-registration failure, surfaced to the sleeping coroutine.
#[derive(Clone, Copy, PartialEq, Eq, Structural, Debug)]
pub struct TimerError {}

/// A handle that can join a coroutine: it names the coroutine whose
/// result the join channel will carry.
pub struct JoinHandle {
    pub coro_id: u64,
}

/// The outcome `join` finds for a coroutine: the entry delivered by the
/// latest `finish` for that identifier, if any. Identifiers are issued
/// once and a coroutine finishes once, so at most one entry matches.
pub open spec fn lookup_finished(s: Seq<FinishedEntry>, id: u64) -> Option<FinishedEntry>
    decreases s.len(),
{
    if s.len() == 0 {
        None
    } else if s.last().id == id {
        Some(s.last())
    } else {
        lookup_finished(s.drop_last(), id)
    }
}

/// The coroutines a reactor tick at time `now` fires, in installation
/// order.
pub open spec fn fired_of(s: Seq<TimerEntry>, now: u64) -> Seq<u64>
    decreases s.len(),
{
    if s.len() == 0 {
        Seq::<u64>::empty()
    } else {
        (if s[0].fire_at <= now { seq![s[0].coro@] } else { Seq::<u64>::empty() })
            + fired_of(s.subrange(1, s.len() as int), now)
    }
}

/// The timer entries a tick at time `now` leaves installed, in order.
pub open spec fn kept_of(s: Seq<TimerEntry>, now: u64) -> Seq<TimerEntry>
    decreases s.len(),
{
    if s.len() == 0 {
        Seq::<TimerEntry>::empty()
    } else {
        (if s[0].fire_at <= now { Seq::<TimerEntry>::empty() } else { seq![s[0]] })
            + kept_of(s.subrange(1, s.len() as int), now)
    }
}

/// What processing a Register message does: on success a fresh latch is
/// stored under the vacant token — exactly one latch per token — and the
/// requesting coroutine is handed back through the reactor-local queue.
pub open spec fn register_transition(
    pre: Scheduler,
    post: Scheduler,
    coro_id: u64,
    accepted: bool,
    token: Option<usize>,
) -> bool {
    &&& match token {
        Some(t) => {
            &&& accepted
            &&& t == slab_vacant_key(pre.slab)
            &&& !pre.entries().dom().contains(t)
            &&& post.entries() == pre.entries().insert(t, post.entries()[t])
            &&& post.entries()[t]@ == crate::ready_states::fresh_latch()
        },
        None => !accepted && post.slab == pre.slab,
    }
    &&& post.io_handler_queue@ == pre.io_handler_queue@.push(coro_id)
    &&& post == (Scheduler {
        slab: post.slab,
        io_handler_queue: post.io_handler_queue,
        ..pre
    })
}

/// What processing a Deregister message does: the token and its latch
/// both cease to exist, and the coroutine is handed back.
pub open spec fn deregister_transition(
    pre: Scheduler,
    post: Scheduler,
    coro_id: u64,
    token: usize,
) -> bool {
    &&& post.entries() == pre.entries().remove(token)
    &&& post.io_handler_queue@ == pre.io_handler_queue@.push(coro_id)
    &&& post == (Scheduler {
        slab: post.slab,
        io_handler_queue: post.io_handler_queue,
        ..pre
    })
}

/// What processing a Timer message does: on success the timer entry owns
/// the coroutine until it fires; on failure the coroutine comes straight
/// back and the sleeper sees the error.
pub open spec fn timer_transition(
    pre: Scheduler,
    post: Scheduler,
    coro_id: u64,
    delay: u64,
    now: u64,
    installed: bool,
) -> bool {
    &&& installed ==> {
        &&& post.timers@ == pre.timers@.push(post.timers@.last())
        &&& post.timers@.last().fire_at == now + delay
        &&& post.timers@.last().coro@ == coro_id
        &&& post.io_handler_queue@ == pre.io_handler_queue@
    }
    &&& !installed ==> {
        &&& post.timers@ == pre.timers@
        &&& post.io_handler_queue@ == pre.io_handler_queue@.push(coro_id)
    }
    &&& post == (Scheduler {
        timers: post.timers,
        io_handler_queue: post.io_handler_queue,
        ..pre
    })
}

/// The outcome the reactor reports for one processed message.
pub enum NotifyOutcome {
    Registered(Option<usize>),
    Deregistered,
    TimerInstalled(Result<(), TimerError>),
    ShutdownRequested,
}

impl Scheduler {
    /// Reactor side of kernel readiness for `token`: run the latch's
    /// `notify` and append whatever it delivers to the reactor-local
    /// handoff queue. Only the one latch under `token` changes.
    pub fn ready(&mut self, token: usize, events: EventMask)
        requires
            old(self).latches_wf(),
            old(self).entries().dom().contains(token),
        ensures
            final(self).latches_wf(),
            final(self).entries() == old(self).entries().insert(token, final(self).entries()[token]),
            final(self).entries()[token]@
                == old(self).entries()[token]@.after_notify(events@),
            final(self).io_handler_queue@
                == old(self).io_handler_queue@
                    + old(self).entries()[token]@.notify_delivered(events@),
            *final(self) == (Scheduler {
                slab: final(self).slab,
                io_handler_queue: final(self).io_handler_queue,
                ..*old(self)
            }),
    {
        let ghost entries0 = self.entries();
        let taken = slab_take(&mut self.slab, token);
        let mut latch = match taken {
            Some(l) => l,
            None => unreached(),
        };
        let mut delivered = latch.notify(events);
        let put_token = slab_put(&mut self.slab, latch);
        self.io_handler_queue.append(&mut delivered);
        proof {
            assert(put_token == token);
            assert_maps_equal!(self.entries(), entries0.insert(token, self.entries()[token]));
        }
    }

    /// Reactor side of a Register message: allocate the vacant token for
    /// a fresh latch when the kernel registration callback succeeded
    /// (`accepted`), and hand the requesting coroutine back either way.
    pub fn handle_register(&mut self, coro: Handle, accepted: bool) -> (token: Option<usize>)
        requires
            old(self).latches_wf(),
        ensures
            final(self).latches_wf(),
            register_transition(*old(self), *final(self), coro@, accepted, token),
    {
        let r = if accepted {
            let latch = ReadyStates::new();
            proof {
                assert(latch@ == crate::ready_states::fresh_latch());
            }
            Some(slab_put(&mut self.slab, latch))
        } else {
            None
        };
        self.io_handler_queue.push_back(coro);
        proof {
            if r is Some {
                let t = r->Some_0;
                assert(self.entries() =~= old(self).entries().insert(t, self.entries()[t]));
                assert forall|u: usize| self.entries().dom().contains(u)
                    implies (#[trigger] self.entries()[u])@.wf() by {
                    if u == t {
                        assert(self.entries()[u]@ == crate::ready_states::fresh_latch());
                    } else {
                        assert(self.entries()[u] == old(self).entries()[u]);
                        assert(old(self).entries()[u]@.wf());
                    }
                }
            } else {
                assert(self.slab == old(self).slab);
                assert(self.entries() == old(self).entries());
            }
            assert(self.latches_wf());
        }
        r
    }

    /// Reactor side of a Deregister message: drop the slab entry — the
    /// kernel-facing callback drops the descriptor — and hand the
    /// coroutine back. Deregistering runs in the owning coroutine's
    /// context, so no waiter can be parked in the latch that goes away.
    pub fn handle_deregister(&mut self, coro: Handle, token: usize)
        requires
            old(self).latches_wf(),
            old(self).entries().dom().contains(token)
                ==> old(self).entries()[token]@.no_waiters(),
        ensures
            final(self).latches_wf(),
            deregister_transition(*old(self), *final(self), coro@, token),
    {
        let taken = slab_take(&mut self.slab, token);
        proof {
            if !old(self).entries().dom().contains(token) {
                assert_maps_equal!(self.entries(), old(self).entries().remove(token));
            }
        }
        match taken {
            Some(_dropped) => {}
            None => {}
        }
        self.io_handler_queue.push_back(coro);
    }

    /// Reactor side of a Timer message: install the entry to fire at
    /// `now + delay` when the timer registration succeeded, else return
    /// the error and the coroutine at once.
    pub fn handle_timer(&mut self, coro: Handle, delay: u64, now: u64, installed: bool)
        -> (r: Result<(), TimerError>)
        requires
            now + delay <= u64::MAX,
        ensures
            r is Ok <==> installed,
            timer_transition(*old(self), *final(self), coro@, delay, now, installed),
    {
        if installed {
            self.timers.push(TimerEntry { fire_at: now + delay, coro });
            Ok(())
        } else {
            self.io_handler_queue.push_back(coro);
            Err(TimerError {})
        }
    }

    /// Reactor side of Shutdown: the loop exits at its next boundary.
    pub fn handle_shutdown(&mut self)
        ensures
            *final(self) == (Scheduler { reactor_running: false, ..*old(self) }),
    {
        self.reactor_running = false;
    }

    /// Process one message from the channel, as the reactor's dispatch
    /// does. `accepted` reports whether the kernel-facing callback of a
    /// Register succeeded, `installed` whether a Timer took; `now` is
    /// the reactor clock in milliseconds.
    pub fn notify(&mut self, msg: Message, now: u64, accepted: bool, installed: bool)
        -> (r: NotifyOutcome)
        requires
            old(self).latches_wf(),
            msg matches Message::Deregister(m) ==> (
                old(self).entries().dom().contains(m.token)
                    ==> old(self).entries()[m.token]@.no_waiters()),
            msg matches Message::Timer(m) ==> now + m.delay <= u64::MAX,
        ensures
            final(self).latches_wf(),
            msg matches Message::Register(m) ==> (
                r matches NotifyOutcome::Registered(token)
                    && register_transition(*old(self), *final(self), m.coro@, accepted, token)),
            msg matches Message::Deregister(m) ==> (
                r is Deregistered
                    && deregister_transition(*old(self), *final(self), m.coro@, m.token)),
            msg matches Message::Timer(m) ==> (
                r matches NotifyOutcome::TimerInstalled(res)
                    && (res is Ok <==> installed)
                    && timer_transition(*old(self), *final(self), m.coro@, m.delay, now, installed)),
            msg is Shutdown ==> (
                r is ShutdownRequested
                    && *final(self) == (Scheduler { reactor_running: false, ..*old(self) })),
    {
        match msg {
            Message::Register(m) => {
                let token = self.handle_register(m.coro, accepted);
                NotifyOutcome::Registered(token)
            }
            Message::Deregister(m) => {
                self.handle_deregister(m.coro, m.token);
                NotifyOutcome::Deregistered
            }
            Message::Timer(m) => {
                let res = self.handle_timer(m.coro, m.delay, now, installed);
                proof {
                    assert(self.slab == old(self).slab);
                    assert(self.entries() == old(self).entries());
                    assert(self.latches_wf());
                }
                NotifyOutcome::TimerInstalled(res)
            }
            Message::Shutdown => {
                self.handle_shutdown();
                proof {
                    assert(self.slab == old(self).slab);
                    assert(self.entries() == old(self).entries());
                    assert(self.latches_wf());
                }
                NotifyOutcome::ShutdownRequested
            }
        }
    }

    /// Worker side of descriptor registration: the caller has parked its
    /// coroutine (`coro`) and hands it to the reactor with the request.
    /// The producer's send loop retries a full channel without losing
    /// the message; this is the accepting attempt.
    pub fn register(&mut self, coro: Handle)
        requires
            old(self).reactor_channel@.len() < old(self).reactor_channel.capacity_spec(),
        ensures
            final(self).reactor_channel@
                == old(self).reactor_channel@.push(final(self).reactor_channel@.last()),
            (final(self).reactor_channel@.last() matches Message::Register(m)
                && m.coro@ == coro@),
            *final(self) == (Scheduler {
                reactor_channel: final(self).reactor_channel,
                ..*old(self)
            }),
    {
        let msg = Message::Register(RegisterMessage::new(coro));
        match self.reactor_channel.try_send(msg) {
            None => {}
            Some(_) => unreached(),
        }
    }

    /// Worker side of deregistration: park and ask the reactor to drop
    /// the registration under `token`.
    pub fn deregister(&mut self, coro: Handle, token: usize)
        requires
            old(self).reactor_channel@.len() < old(self).reactor_channel.capacity_spec(),
        ensures
            final(self).reactor_channel@
                == old(self).reactor_channel@.push(final(self).reactor_channel@.last()),
            (final(self).reactor_channel@.last() matches Message::Deregister(m)
                && m.coro@ == coro@ && m.token == token),
            *final(self) == (Scheduler {
                reactor_channel: final(self).reactor_channel,
                ..*old(self)
            }),
    {
        let msg = Message::Deregister(DeregisterMessage::new(coro, token));
        match self.reactor_channel.try_send(msg) {
            None => {}
            Some(_) => unreached(),
        }
    }

    /// Worker side of `sleep_ms`: park and ask the reactor to hold the
    /// coroutine for `delay` milliseconds. The result of the timer
    /// registration reaches the sleeper when the reactor processes the
    /// message.
    pub fn sleep_ms(&mut self, coro: Handle, delay: u64)
        requires
            old(self).reactor_channel@.len() < old(self).reactor_channel.capacity_spec(),
        ensures
            final(self).reactor_channel@
                == old(self).reactor_channel@.push(final(self).reactor_channel@.last()),
            (final(self).reactor_channel@.last() matches Message::Timer(m)
                && m.coro@ == coro@ && m.delay == delay),
            *final(self) == (Scheduler {
                reactor_channel: final(self).reactor_channel,
                ..*old(self)
            }),
    {
        let msg = Message::Timer(TimerMessage::new(coro, delay));
        match self.reactor_channel.try_send(msg) {
            None => {}
            Some(_) => unreached(),
        }
    }

    /// `sleep` with a duration split into whole seconds and nanoseconds:
    /// the delay is rounded down to whole milliseconds, as `sleep_ms`
    /// takes it.
    pub fn sleep(&mut self, coro: Handle, secs: u64, subsec_nanos: u32)
        requires
            old(self).reactor_channel@.len() < old(self).reactor_channel.capacity_spec(),
            secs * 1000 + subsec_nanos as u64 / 1000000 <= u64::MAX,
        ensures
            final(self).reactor_channel@
                == old(self).reactor_channel@.push(final(self).reactor_channel@.last()),
            (final(self).reactor_channel@.last() matches Message::Timer(m)
                && m.coro@ == coro@
                && m.delay == secs * 1000 + subsec_nanos as u64 / 1000000),
            *final(self) == (Scheduler {
                reactor_channel: final(self).reactor_channel,
                ..*old(self)
            }),
    {
        let millis = secs * 1000 + (subsec_nanos as u64) / 1000000;
        self.sleep_ms(coro, millis);
    }

    /// One timer sweep of the reactor tick at time `now`: every entry
    /// whose deadline has passed — a delay of 0 among them — hands its
    /// coroutine to the reactor-local queue in installation order; the
    /// rest stay installed.
    pub fn fire_timers(&mut self, now: u64)
        ensures
            final(self).timers@ == kept_of(old(self).timers@, now),
            final(self).io_handler_queue@
                == old(self).io_handler_queue@ + fired_of(old(self).timers@, now),
            *final(self) == (Scheduler {
                timers: final(self).timers,
                io_handler_queue: final(self).io_handler_queue,
                ..*old(self)
            }),
    {
        let mut pending: Vec<TimerEntry> = Vec::new();
        std::mem::swap(&mut pending, &mut self.timers);
        let kept = drain_timers(pending, &mut self.io_handler_queue, now);
        self.timers = kept;
    }

    /// Record a finished coroutine's result in its join channel and
    /// destroy the handle: the coroutine is destroyed exactly once,
    /// after its entry returned.
    pub fn finish(&mut self, coro: Handle, value: u64)
        ensures
            final(self).finished@ == old(self).finished@.push(
                FinishedEntry { id: coro@, value, panicked: false }),
            *final(self) == (Scheduler { finished: final(self).finished, ..*old(self) }),
    {
        let entry = FinishedEntry { id: coro.id(), value, panicked: false };
        self.finished.push(entry);
    }

    /// Record that a coroutine's entry panicked: the payload (named by
    /// `payload`) reaches the join channel marked as a panic, and the
    /// joiner re-raises it.
    pub fn finish_panicked(&mut self, coro: Handle, payload: u64)
        ensures
            final(self).finished@ == old(self).finished@.push(
                FinishedEntry { id: coro@, value: payload, panicked: true }),
            *final(self) == (Scheduler { finished: final(self).finished, ..*old(self) }),
    {
        let entry = FinishedEntry { id: coro.id(), value: payload, panicked: true };
        self.finished.push(entry);
    }
}

impl JoinHandle {
    /// Await completion of the coroutine and return its result: the
    /// value its `finish` delivered, or `None` while it still runs — in
    /// the running system the joiner parks until the slot fills.
    #[verifier::loop_isolation(false)]
    pub fn join(self, sched: &Scheduler) -> (r: Option<FinishedEntry>)
        ensures
            r == lookup_finished(sched.finished@, self.coro_id),
    {
        let entries = &sched.finished;
        let mut i = entries.len();
        proof {
            assert(entries@.take(entries@.len() as int) =~= entries@);
        }
        while i > 0
            invariant
                i <= entries@.len(),
                lookup_finished(entries@, self.coro_id)
                    == lookup_finished(entries@.take(i as int), self.coro_id),
            decreases i,
        {
            i = i - 1;
            let e = entries[i];
            proof {
                assert(entries@.take(i as int + 1).last() == entries@[i as int]);
                assert(entries@.take(i as int + 1).drop_last() =~= entries@.take(i as int));
            }
            if e.id == self.coro_id {
                proof {
                    assert(lookup_finished(entries@.take(i as int + 1), self.coro_id)
                        == Some(e));
                }
                return Some(e);
            }
        }
        proof {
            assert(entries@.take(0) =~= Seq::<FinishedEntry>::empty());
        }
        None
    }
}

/// Sweep `timers` for the tick at time `now`: append the fired
/// coroutines to `io` in installation order, return the entries kept.
fn drain_timers(timers: Vec<TimerEntry>, io: &mut HandleList, now: u64)
    -> (kept: Vec<TimerEntry>)
    ensures
        kept@ == kept_of(timers@, now),
        final(io)@ == old(io)@ + fired_of(timers@, now),
{
    let ghost ts0 = timers@;
    let mut timers = timers;
    let mut kept: Vec<TimerEntry> = Vec::new();
    while timers.len() > 0
        invariant
            old(io)@ + fired_of(ts0, now) == io@ + fired_of(timers@, now),
            kept_of(ts0, now) == kept@ + kept_of(timers@, now),
        decreases timers.len(),
    {
        let ghost rem0 = timers@;
        let e = timers.remove(0);
        proof {
            assert(timers@ =~= rem0.subrange(1, rem0.len() as int));
        }
        if e.fire_at <= now {
            io.push_back(e.coro);
            proof {
                assert(io@ + fired_of(timers@, now)
                    =~= old(io)@ + fired_of(ts0, now));
                assert(kept@ + kept_of(timers@, now) =~= kept_of(ts0, now));
            }
        } else {
            kept.push(e);
            proof {
                assert(io@ + fired_of(timers@, now)
                    =~= old(io)@ + fired_of(ts0, now));
                assert(kept@ + kept_of(timers@, now) =~= kept_of(ts0, now));
            }
        }
    }
    proof {
        assert(io@ =~= old(io)@ + fired_of(ts0, now));
        assert(kept@ =~= kept_of(ts0, now));
    }
    kept
}

/// After `deregister` for a token, neither the token nor its latch
/// exists any longer: the table maps every live token to exactly one
/// latch, and a removed token to none.
pub proof fn lemma_deregister_removes_registration(
    pre: Scheduler,
    post: Scheduler,
    coro_id: u64,
    token: usize,
)
    requires
        deregister_transition(pre, post, coro_id, token),
    ensures
        !post.entries().dom().contains(token),
        forall|t: usize| t != token
            ==> post.entries().dom().contains(t) == pre.entries().dom().contains(t),
        forall|t: usize| t != token && pre.entries().dom().contains(t)
            ==> post.entries()[t] == pre.entries()[t],
{
}

/// `fired_of` over an appended entry: installing a timer and then
/// ticking fires it exactly when its deadline has passed, after
/// everything already due.
pub proof fn lemma_fired_of_push(s: Seq<TimerEntry>, e: TimerEntry, now: u64)
    ensures
        fired_of(s.push(e), now) == fired_of(s, now)
            + (if e.fire_at <= now { seq![e.coro@] } else { Seq::<u64>::empty() }),
    decreases s.len(),
{
    let ce: Seq<u64> = if e.fire_at <= now { seq![e.coro@] } else { Seq::<u64>::empty() };
    if s.len() == 0 {
        assert(s.push(e)[0] == e);
        let tail = s.push(e).subrange(1, 1);
        assert(tail =~= Seq::<TimerEntry>::empty());
        assert(fired_of(tail, now) == Seq::<u64>::empty());
        assert(fired_of(s, now) == Seq::<u64>::empty());
        assert(fired_of(s.push(e), now) == ce + fired_of(tail, now));
        assert(fired_of(s.push(e), now) =~= fired_of(s, now) + ce);
    } else {
        assert(s.push(e)[0] == s[0]);
        let c0: Seq<u64> = if s[0].fire_at <= now { seq![s[0].coro@] } else { Seq::<u64>::empty() };
        let tail = s.subrange(1, s.len() as int);
        assert(s.push(e).subrange(1, s.push(e).len() as int) =~= tail.push(e));
        lemma_fired_of_push(tail, e, now);
        assert(fired_of(s.push(e), now) == c0 + fired_of(tail.push(e), now));
        assert(fired_of(s.push(e), now) == c0 + (fired_of(tail, now) + ce));
        assert(fired_of(s, now) == c0 + fired_of(tail, now));
        assert(fired_of(s.push(e), now) =~= fired_of(s, now) + ce);
    }
}

/// A tick conserves timer-held coroutines: every installed entry either
/// fires — its coroutine moves to the handoff queue — or stays
/// installed, and exactly one of the two happens to each.
pub proof fn lemma_tick_conserves_timers(s: Seq<TimerEntry>, now: u64)
    ensures
        fired_of(s, now).len() + kept_of(s, now).len() == s.len(),
    decreases s.len(),
{
    if s.len() > 0 {
        lemma_tick_conserves_timers(s.subrange(1, s.len() as int), now);
    }
}

/// A timer with delay 0, installed at time `now`, fires on the very
/// next reactor tick: its coroutine is dispatched then, not starved.
pub proof fn lemma_timer_zero_delay_fires(timers: Seq<TimerEntry>, e: TimerEntry, tick: u64)
    requires
        e.fire_at <= tick,
    ensures
        fired_of(timers.push(e), tick) == fired_of(timers, tick) + seq![e.coro@],
{
    lemma_fired_of_push(timers, e, tick);
}

/// Join delivers exactly what the coroutine finished with: once an
/// entry is recorded for `id`, `join` finds that entry — value and
/// panic mark alike — and the outcomes of other coroutines are
/// untouched. Spawning M coroutines that each finish with K therefore
/// yields K from each of the M joins, on any number of workers; a
/// panicking coroutine yields its payload marked for re-raising.
pub proof fn lemma_join_delivers_result(s: Seq<FinishedEntry>, e: FinishedEntry)
    ensures
        lookup_finished(s.push(e), e.id) == Some(e),
        forall|j: u64| j != e.id
            ==> lookup_finished(s.push(e), j) == lookup_finished(s, j),
{
    let s2 = s.push(e);
    assert(s2.last() == e);
    assert(s2.drop_last() =~= s);
}

} // verus!
