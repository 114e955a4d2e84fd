use coio::handle::Handle;
use coio::ready_states::EventMask;
use coio::ready_states::ReadyType;
use coio::ready_states::WaitOutcome;
use coio::scheduler::Message;
use coio::scheduler::NotifyOutcome;
use coio::scheduler::Scheduler;
use coio::slab_store::slab_contains;
use coio::slab_store::slab_put;
use coio::slab_store::slab_take;

#[test]
fn register_stores_one_latch_and_returns_coro() {
    let mut sched = Scheduler::new();
    let token = sched.handle_register(Handle::new(1), true);
    assert_eq!(token, Some(0));
    assert!(slab_contains(&sched.slab, 0));
    // the requesting coroutine comes back through the handoff queue
    sched.append_io_handler_to_global_queue();
    assert_eq!(sched.global_queue_size(), 1);
}

#[test]
fn failed_register_stores_nothing() {
    let mut sched = Scheduler::new();
    let token = sched.handle_register(Handle::new(1), false);
    assert_eq!(token, None);
    assert!(!slab_contains(&sched.slab, 0));
    // the coroutine still comes back
    sched.append_io_handler_to_global_queue();
    assert_eq!(sched.global_queue_size(), 1);
}

#[test]
fn deregister_removes_token_and_latch() {
    let mut sched = Scheduler::new();
    let token = sched.handle_register(Handle::new(1), true).unwrap();
    assert!(slab_contains(&sched.slab, token));
    sched.handle_deregister(Handle::new(1), token);
    // neither the token nor the latch exists afterwards
    assert!(!slab_contains(&sched.slab, token));
    // deregistering a dead token is tolerated
    sched.handle_deregister(Handle::new(2), token);
    assert!(!slab_contains(&sched.slab, token));
}

#[test]
fn reregistration_starts_fresh() {
    let mut sched = Scheduler::new();
    let t1 = sched.handle_register(Handle::new(1), true).unwrap();
    // latch some readiness on the first registration
    sched.ready(t1, EventMask::single(ReadyType::Readable));
    sched.handle_deregister(Handle::new(1), t1);
    // a fresh registration on the same descriptor reuses the key and
    // starts from the fresh latch: nothing latched, nobody parked
    let t2 = sched.handle_register(Handle::new(2), true).unwrap();
    assert_eq!(t2, t1);
    let mut latch = slab_take(&mut sched.slab, t2).unwrap();
    assert!(matches!(latch.wait(ReadyType::Readable, Handle::new(2)), WaitOutcome::Parked));
}

#[test]
fn reactor_ready_dispatches_parked_waiter() {
    let mut sched = Scheduler::new();
    let token = sched.handle_register(Handle::new(1), true).unwrap();
    // the owning coroutine blocks on read and parks
    let mut latch = slab_take(&mut sched.slab, token).unwrap();
    assert!(matches!(latch.wait(ReadyType::Readable, Handle::new(33)), WaitOutcome::Parked));
    let back = slab_put(&mut sched.slab, latch);
    assert_eq!(back, token);
    // kernel readiness reaches the reactor
    sched.ready(token, EventMask::single(ReadyType::Readable));
    sched.append_io_handler_to_global_queue();
    // the handoff carried the register round-trip first, then the
    // freshly woken waiter, in order
    let mut p = coio::processor::Processor::new(0);
    assert_eq!(p.take_from_global(&mut sched), 2);
    assert!(p.pick_next());
    assert_eq!(p.park_with().id(), 1);
    assert!(p.pick_next());
    assert_eq!(p.park_with().id(), 33);
    assert_eq!(sched.global_queue_size(), 0);
}

#[test]
fn reactor_ready_latches_when_nobody_parked() {
    let mut sched = Scheduler::new();
    let token = sched.handle_register(Handle::new(1), true).unwrap();
    sched.ready(token, EventMask::single(ReadyType::Writable));
    // readiness is sticky: the next wait on that registration returns
    // without parking
    let mut latch = slab_take(&mut sched.slab, token).unwrap();
    assert!(matches!(latch.wait(ReadyType::Writable, Handle::new(1)), WaitOutcome::Immediate(_)));
}

#[test]
fn timer_zero_delay_fires_next_tick() {
    let mut sched = Scheduler::new();
    let res = sched.handle_timer(Handle::new(5), 0, 100, true);
    assert!(res.is_ok());
    sched.fire_timers(100);
    sched.append_io_handler_to_global_queue();
    assert_eq!(sched.global_queue_size(), 1);
    assert!(sched.timers.is_empty());
}

#[test]
fn timer_fires_exactly_at_deadline() {
    let mut sched = Scheduler::new();
    sched.handle_timer(Handle::new(6), 50, 100, true).unwrap();
    sched.fire_timers(149);
    assert_eq!(sched.timers.len(), 1);
    sched.append_io_handler_to_global_queue();
    assert_eq!(sched.global_queue_size(), 0);
    sched.fire_timers(150);
    assert!(sched.timers.is_empty());
    sched.append_io_handler_to_global_queue();
    assert_eq!(sched.global_queue_size(), 1);
}

#[test]
fn timer_failure_returns_coroutine_with_error() {
    let mut sched = Scheduler::new();
    let res = sched.handle_timer(Handle::new(7), 5, 0, false);
    assert!(res.is_err());
    assert!(sched.timers.is_empty());
    sched.append_io_handler_to_global_queue();
    assert_eq!(sched.global_queue_size(), 1);
}

#[test]
fn sleep_rounds_duration_down_to_millis() {
    let mut sched = Scheduler::new();
    sched.sleep(Handle::new(1), 1, 500_000_000);
    sched.sleep(Handle::new(2), 0, 999_999);
    match sched.reactor_channel.recv() {
        Some(Message::Timer(m)) => {
            assert_eq!(m.coro.id(), 1);
            assert_eq!(m.delay, 1500);
        }
        _ => panic!("a sleep must queue a timer message"),
    }
    match sched.reactor_channel.recv() {
        Some(Message::Timer(m)) => {
            assert_eq!(m.coro.id(), 2);
            assert_eq!(m.delay, 0);
        }
        _ => panic!("a sleep must queue a timer message"),
    }
}

#[test]
fn notify_dispatches_messages() {
    let mut sched = Scheduler::new();
    sched.register(Handle::new(1));
    let msg = sched.reactor_channel.recv().unwrap();
    let outcome = sched.notify(msg, 0, true, true);
    match outcome {
        NotifyOutcome::Registered(token) => assert_eq!(token, Some(0)),
        _ => panic!("a register message must register"),
    }
    sched.deregister(Handle::new(1), 0);
    let msg = sched.reactor_channel.recv().unwrap();
    let outcome = sched.notify(msg, 0, true, true);
    assert!(matches!(outcome, NotifyOutcome::Deregistered));
    assert!(!slab_contains(&sched.slab, 0));
    sched.sleep_ms(Handle::new(2), 25);
    let msg = sched.reactor_channel.recv().unwrap();
    let outcome = sched.notify(msg, 10, true, true);
    match outcome {
        NotifyOutcome::TimerInstalled(res) => assert!(res.is_ok()),
        _ => panic!("a timer message must install a timer"),
    }
    let outcome = sched.notify(Message::Shutdown, 0, true, true);
    assert!(matches!(outcome, NotifyOutcome::ShutdownRequested));
    assert!(!sched.reactor_running);
}

#[test]
fn shutdown_leaves_parked_waiters_in_place() {
    let mut sched = Scheduler::new();
    let token = sched.handle_register(Handle::new(1), true).unwrap();
    let mut latch = slab_take(&mut sched.slab, token).unwrap();
    assert!(matches!(latch.wait(ReadyType::Readable, Handle::new(1)), WaitOutcome::Parked));
    slab_put(&mut sched.slab, latch);
    sched.handle_shutdown();
    assert!(!sched.reactor_running);
    // the waiter was not resumed: it still sits in its slot
    let mut latch = slab_take(&mut sched.slab, token).unwrap();
    let mut delivered = latch.notify(EventMask::single(ReadyType::Readable));
    assert_eq!(delivered.len(), 1);
    assert_eq!(delivered.pop_front().unwrap().id(), 1);
}
