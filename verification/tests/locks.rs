use coio::sync::spinlock::Spinlock;
use coio::sync::spinlock::TicketSpinlock;
use coio::sync::spinlock::BACKOFF_BASE;
use coio::sync::spinlock::BACKOFF_CEILING;
use coio::sync::spinlock::backoff_next;
use coio::sync::spinlock::ticket_backoff;

#[test]
fn spinlock_try_lock_succeeds_once() {
    let mut lock = Spinlock::new(5u64);
    let guard = lock.try_lock();
    assert!(guard.is_some());
    // a held lock refuses the next attempt
    assert!(lock.try_lock().is_none());
    let g = guard.unwrap();
    assert_eq!(g.data, 5);
    lock.unlock(g);
    assert!(lock.try_lock().is_some());
}

#[test]
fn spinlock_lock_roundtrip_preserves_data() {
    let mut lock = Spinlock::new(11u64);
    let mut g = lock.lock();
    g.data += 1;
    lock.unlock(g);
    let g = lock.lock();
    assert_eq!(g.data, 12);
    lock.unlock(g);
}

#[test]
fn backoff_doubles_until_ceiling() {
    assert_eq!(backoff_next(BACKOFF_BASE), 32);
    assert_eq!(backoff_next(32), 64);
    assert_eq!(backoff_next(2048), BACKOFF_CEILING);
    // the ceiling holds
    assert_eq!(backoff_next(BACKOFF_CEILING), BACKOFF_CEILING);
}

#[test]
fn ticket_backoff_is_proportional() {
    // four pause iterations per ticket still ahead
    assert_eq!(ticket_backoff(3, 3), 0);
    assert_eq!(ticket_backoff(5, 3), 8);
    assert_eq!(ticket_backoff(103, 3), 400);
}

#[test]
fn ticket_lock_serves_tickets_in_order() {
    let mut lock = TicketSpinlock::new(0u64);
    let mut g = lock.lock();
    // first grant takes ticket 0 and will serve 1 next
    assert_eq!(g.next, 1);
    g.data = 7;
    lock.unlock(g);
    let g2 = lock.lock();
    assert_eq!(g2.next, 2);
    assert_eq!(g2.data, 7);
    lock.unlock(g2);
}
