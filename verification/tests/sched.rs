use coio::QUEUE_SIZE;
use coio::handle::Handle;
use coio::handle::HandleList;
use coio::processor::Processor;
use coio::scheduler::Message;
use coio::scheduler::MessageQueue;
use coio::scheduler::Scheduler;
use coio::scheduler::TimerMessage;

#[test]
fn test_join_basic() {
    let mut sched = Scheduler::new().with_workers(1);
    let mut p = Processor::new(0);
    let (guard, _) = p.spawn(&mut sched);
    assert!(p.pick_next());
    // the coroutine's entry runs and returns 1
    let coro = p.park_with();
    sched.finish(coro, 1);
    assert_eq!(guard.join(&sched).unwrap().value, 1);
}

#[test]
fn ping_pong_yield() {
    // workers = 1: spawn, yield twice, finish with 7, join
    let mut sched = Scheduler::new().with_workers(1);
    let mut p = Processor::new(0);
    let (guard, _) = p.spawn(&mut sched);
    assert!(p.pick_next());
    p.sched(&mut sched);
    assert!(p.pick_next());
    p.sched(&mut sched);
    assert!(p.pick_next());
    let coro = p.park_with();
    sched.finish(coro, 7);
    let got = guard.join(&sched).unwrap();
    assert_eq!(got.value, 7);
    assert!(!got.panicked);
}

#[test]
fn same_value_spawns_yield_same_multiset() {
    // M spawns of || K joined on one worker yield exactly {K, ..., K}
    let mut sched = Scheduler::new();
    let mut p = Processor::new(0);
    let mut guards = Vec::new();
    for _ in 0..5 {
        let (g, _) = p.spawn(&mut sched);
        guards.push(g);
    }
    while p.pick_next() {
        let coro = p.park_with();
        sched.finish(coro, 9);
    }
    assert_eq!(guards.len(), 5);
    for g in guards {
        assert_eq!(g.join(&sched).unwrap().value, 9);
    }
}

#[test]
fn parallel_fan_out_sums_squares() {
    // 10 000 spawns overflow the local queue many times over; four
    // workers drain the local, stolen and global portions; every join
    // returns its own square and the sum matches
    let n: u64 = 10_000;
    let mut sched = Scheduler::new().with_workers(4);
    let mut workers = vec![
        Processor::new(0),
        Processor::new(1),
        Processor::new(2),
        Processor::new(3),
    ];
    let mut guards = Vec::new();
    for _ in 0..n {
        let (g, _) = workers[0].spawn(&mut sched);
        guards.push(g);
    }
    {
        let (head, tail) = workers.split_at_mut(1);
        tail[0].steal_half(&mut head[0]);
    }
    loop {
        let mut progressed = false;
        for w in workers.iter_mut() {
            while w.pick_next() {
                let coro = w.park_with();
                let id = coro.id();
                sched.finish(coro, id * id);
                progressed = true;
            }
        }
        if !progressed {
            let mut refilled = false;
            for w in workers.iter_mut() {
                if w.take_from_global(&mut sched) > 0 {
                    refilled = true;
                }
            }
            if !refilled {
                break;
            }
        }
    }
    let mut sum: u64 = 0;
    for (i, g) in guards.into_iter().enumerate() {
        let entry = g.join(&sched).unwrap();
        assert_eq!(entry.value, (i as u64) * (i as u64));
        sum += entry.value;
    }
    let expected: u64 = (0..n).map(|i| i * i).sum();
    assert_eq!(sum, expected);
}

#[test]
fn panic_propagates_through_join() {
    let mut sched = Scheduler::new();
    let mut p = Processor::new(0);
    let (guard, _) = p.spawn(&mut sched);
    assert!(p.pick_next());
    // the entry panicked; the payload is caught at the coroutine
    // boundary and delivered marked for re-raising
    let coro = p.park_with();
    sched.finish_panicked(coro, 77);
    let got = guard.join(&sched).unwrap();
    assert!(got.panicked);
    assert_eq!(got.value, 77);
}

#[test]
fn join_before_finish_is_pending() {
    let mut sched = Scheduler::new();
    let mut p = Processor::new(0);
    let (guard, _) = p.spawn(&mut sched);
    assert!(guard.join(&sched).is_none());
}

#[test]
fn local_queue_overflow_moves_older_half_global() {
    let mut sched = Scheduler::new();
    let mut p = Processor::new(0);
    for i in 0..QUEUE_SIZE as u64 {
        let woken = p.ready(&mut sched, Handle::new(i));
        assert_eq!(woken, 0);
        assert_eq!(sched.global_queue_size(), 0);
    }
    // the queue is full: the next ready spills the older half
    p.ready(&mut sched, Handle::new(999));
    assert_eq!(sched.get_global_queue().len(), QUEUE_SIZE / 2);
    assert_eq!(sched.global_queue_size(), QUEUE_SIZE / 2);
    // the oldest went global, in order
    let half = QUEUE_SIZE as u64 / 2;
    let mut p2 = Processor::new(1);
    let taken = p2.take_from_global(&mut sched);
    assert_eq!(taken, QUEUE_SIZE / 2);
    for want in 0..half {
        assert!(p2.pick_next());
        assert_eq!(p2.park_with().id(), want);
    }
    // size accounting stayed consistent
    assert_eq!(sched.global_queue_size(), sched.get_global_queue().len());
    // the keeper's queue starts at the newer half
    assert!(p.pick_next());
    assert_eq!(p.park_with().id(), half);
}

#[test]
fn push_global_queue_keeps_size_cache_exact() {
    let mut sched = Scheduler::new();
    sched.push_global_queue(Handle::new(1));
    sched.push_global_queue(Handle::new(2));
    assert_eq!(sched.global_queue_size(), 2);
    assert_eq!(sched.get_global_queue().len(), 2);
    let mut extra = HandleList::new();
    extra.push_back(Handle::new(3));
    extra.push_back(Handle::new(4));
    sched.push_global_queue_iter(extra);
    assert_eq!(sched.global_queue_size(), 4);
    assert_eq!(sched.get_global_queue().len(), 4);
}

#[test]
fn unpark_policy_counts() {
    let mut sched = Scheduler::new();
    // nobody idle: nothing to wake
    assert_eq!(sched.unpark_processor_maybe(3), 0);
    sched.idle_processor_count = 3;
    // backlog of 300: 300 / 128 + 1 = 3 wakeups allowed
    assert_eq!(sched.unpark_processors_with_queue_size(300), 3);
    // small backlog wakes one
    assert_eq!(sched.unpark_processors_with_queue_size(10), 1);
    // idle count caps the wake
    assert_eq!(sched.unpark_processor_maybe(10), 3);
    // a spinning worker suppresses all wakeups
    sched.inc_spinning();
    assert_eq!(sched.unpark_processors_with_queue_size(300), 0);
    sched.dec_spinning();
    assert_eq!(sched.unpark_processor_maybe(1), 1);
}

#[test]
fn park_processor_double_checks() {
    let mut sched = Scheduler::new();
    assert!(sched.park_processor(true));
    // a final re-check that found work refuses to block
    assert!(!sched.park_processor(false));
    // the shutdown wakeup flag refuses to block
    sched.idle_wakeup_flag = true;
    assert!(!sched.park_processor(true));
}

#[test]
fn steal_takes_older_half_in_order() {
    let mut sched = Scheduler::new();
    let mut victim = Processor::new(0);
    for i in 0..10u64 {
        victim.ready(&mut sched, Handle::new(i));
    }
    let mut thief = Processor::new(1);
    let stolen = thief.steal_half(&mut victim);
    assert_eq!(stolen, 5);
    for want in 0..5u64 {
        assert!(thief.pick_next());
        assert_eq!(thief.park_with().id(), want);
    }
    for want in 5..10u64 {
        assert!(victim.pick_next());
        assert_eq!(victim.park_with().id(), want);
    }
}

#[test]
fn reactor_channel_full_returns_message_intact() {
    let mut q = MessageQueue::new(2);
    assert!(q.try_send(Message::Timer(TimerMessage::new(Handle::new(1), 10))).is_none());
    assert!(q.try_send(Message::Timer(TimerMessage::new(Handle::new(2), 20))).is_none());
    // full: the message comes back unchanged, nothing is lost
    let back = q.try_send(Message::Timer(TimerMessage::new(Handle::new(3), 30)));
    match back {
        Some(Message::Timer(m)) => {
            assert_eq!(m.coro.id(), 3);
            assert_eq!(m.delay, 30);
        }
        _ => panic!("a full channel must hand the same message back"),
    }
    // single-producer order is preserved
    match q.recv() {
        Some(Message::Timer(m)) => assert_eq!(m.coro.id(), 1),
        _ => panic!("first message must come out first"),
    }
    match q.recv() {
        Some(Message::Timer(m)) => assert_eq!(m.coro.id(), 2),
        _ => panic!("second message must follow"),
    }
    assert!(q.recv().is_none());
}

#[test]
fn builders_configure() {
    let sched = Scheduler::new().with_workers(4).default_stack_size(64 * 1024);
    assert_eq!(sched.expected_worker_count, 4);
    assert_eq!(sched.default_spawn_options.stack_size, 64 * 1024);
    assert!(!sched.is_shutting_down());
}
