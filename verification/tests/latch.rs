use coio::handle::Handle;
use coio::ready_states::EventMask;
use coio::ready_states::ReadyStates;
use coio::ready_states::ReadyType;
use coio::ready_states::WaitOutcome;

#[test]
fn wait_parks_when_nothing_latched() {
    let mut latch = ReadyStates::new();
    let outcome = latch.wait(ReadyType::Readable, Handle::new(7));
    assert!(matches!(outcome, WaitOutcome::Parked));
}

#[test]
fn make_ready_then_wait_is_immediate() {
    let mut latch = ReadyStates::new();
    latch.make_ready(ReadyType::Writable);
    let outcome = latch.wait(ReadyType::Writable, Handle::new(3));
    match outcome {
        WaitOutcome::Immediate(h) => assert_eq!(h.id(), 3),
        WaitOutcome::Parked => panic!("the latched bit must be consumed without parking"),
    }
}

#[test]
fn latched_bit_is_consumed_once() {
    let mut latch = ReadyStates::new();
    latch.make_ready(ReadyType::Readable);
    let first = latch.wait(ReadyType::Readable, Handle::new(1));
    assert!(matches!(first, WaitOutcome::Immediate(_)));
    // the bit was consumed: the next wait parks
    let second = latch.wait(ReadyType::Readable, Handle::new(1));
    assert!(matches!(second, WaitOutcome::Parked));
}

#[test]
fn make_ready_idempotent_when_latched() {
    let mut with_one = ReadyStates::new();
    with_one.make_ready(ReadyType::Hup);
    let mut with_two = ReadyStates::new();
    with_two.make_ready(ReadyType::Hup);
    with_two.make_ready(ReadyType::Hup);
    // one consume drains the latch in both cases, and the second wait
    // parks in both: make_ready on a latched kind was a no-op
    assert!(matches!(with_one.wait(ReadyType::Hup, Handle::new(1)), WaitOutcome::Immediate(_)));
    assert!(matches!(with_two.wait(ReadyType::Hup, Handle::new(2)), WaitOutcome::Immediate(_)));
    assert!(matches!(with_one.wait(ReadyType::Hup, Handle::new(1)), WaitOutcome::Parked));
    assert!(matches!(with_two.wait(ReadyType::Hup, Handle::new(2)), WaitOutcome::Parked));
}

#[test]
fn notify_delivers_parked_waiter() {
    let mut latch = ReadyStates::new();
    let outcome = latch.wait(ReadyType::Readable, Handle::new(42));
    assert!(matches!(outcome, WaitOutcome::Parked));
    let delivered = latch.notify(EventMask::single(ReadyType::Readable));
    let mut delivered = delivered;
    assert_eq!(delivered.len(), 1);
    let h = delivered.pop_front().unwrap();
    assert_eq!(h.id(), 42);
    // the waiter left its slot and the bit stays clear: a fresh wait parks
    assert!(matches!(latch.wait(ReadyType::Readable, Handle::new(42)), WaitOutcome::Parked));
}

#[test]
fn notify_without_waiter_latches_stickily() {
    let mut latch = ReadyStates::new();
    let mut delivered = latch.notify(EventMask::single(ReadyType::Writable));
    assert!(delivered.is_empty());
    assert!(delivered.pop_front().is_none());
    // readiness observed with nobody parked persists until consumed
    let outcome = latch.wait(ReadyType::Writable, Handle::new(9));
    assert!(matches!(outcome, WaitOutcome::Immediate(_)));
}

#[test]
fn wait_and_notify_linearize_either_way() {
    // wait first: notify delivers the parked handle, and never also
    // leaves the bit set
    let mut a = ReadyStates::new();
    assert!(matches!(a.wait(ReadyType::Error, Handle::new(5)), WaitOutcome::Parked));
    let mut d = a.notify(EventMask::single(ReadyType::Error));
    assert_eq!(d.len(), 1);
    assert_eq!(d.pop_front().unwrap().id(), 5);
    assert!(matches!(a.wait(ReadyType::Error, Handle::new(5)), WaitOutcome::Parked));

    // notify first: wait consumes the bit, and nothing was delivered
    let mut b = ReadyStates::new();
    let d2 = b.notify(EventMask::single(ReadyType::Error));
    assert!(d2.is_empty());
    assert!(matches!(b.wait(ReadyType::Error, Handle::new(5)), WaitOutcome::Immediate(_)));
    // both orders end with the bit clear and the slot empty
    assert!(matches!(b.wait(ReadyType::Error, Handle::new(5)), WaitOutcome::Parked));
}

#[test]
fn notify_handles_all_four_kinds_in_order() {
    let mut latch = ReadyStates::new();
    assert!(matches!(latch.wait(ReadyType::Readable, Handle::new(10)), WaitOutcome::Parked));
    assert!(matches!(latch.wait(ReadyType::Writable, Handle::new(11)), WaitOutcome::Parked));
    assert!(matches!(latch.wait(ReadyType::Error, Handle::new(12)), WaitOutcome::Parked));
    assert!(matches!(latch.wait(ReadyType::Hup, Handle::new(13)), WaitOutcome::Parked));
    let events = EventMask::none()
        .insert(ReadyType::Readable)
        .insert(ReadyType::Writable)
        .insert(ReadyType::Error)
        .insert(ReadyType::Hup);
    let mut delivered = latch.notify(events);
    assert_eq!(delivered.len(), 4);
    assert_eq!(delivered.pop_front().unwrap().id(), 10);
    assert_eq!(delivered.pop_front().unwrap().id(), 11);
    assert_eq!(delivered.pop_front().unwrap().id(), 12);
    assert_eq!(delivered.pop_front().unwrap().id(), 13);
}

#[test]
fn notify_mixed_waiter_and_latch() {
    let mut latch = ReadyStates::new();
    assert!(matches!(latch.wait(ReadyType::Readable, Handle::new(20)), WaitOutcome::Parked));
    let events = EventMask::none()
        .insert(ReadyType::Readable)
        .insert(ReadyType::Writable);
    let mut delivered = latch.notify(events);
    // the readable waiter is delivered; writable, with nobody parked,
    // latches instead
    assert_eq!(delivered.len(), 1);
    assert_eq!(delivered.pop_front().unwrap().id(), 20);
    assert!(matches!(latch.wait(ReadyType::Writable, Handle::new(21)), WaitOutcome::Immediate(_)));
}

#[test]
fn event_mask_insert_remove_contains() {
    let m = EventMask::none();
    assert!(!m.contains(ReadyType::Readable));
    let m = m.insert(ReadyType::Readable).insert(ReadyType::Hup);
    assert!(m.contains(ReadyType::Readable));
    assert!(m.contains(ReadyType::Hup));
    assert!(!m.contains(ReadyType::Writable));
    let m = m.remove(ReadyType::Readable);
    assert!(!m.contains(ReadyType::Readable));
    assert!(m.contains(ReadyType::Hup));
}
