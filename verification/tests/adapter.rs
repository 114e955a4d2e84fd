use coio::net::GenericEvented;
use coio::net::IoAction;
use coio::net::IoStatus;
use coio::net::SyncGuard;
use coio::net::flush_step;
use coio::net::read_step;
use coio::net::write_step;
use coio::ready_states::ReadyType;

#[test]
fn read_waits_for_readability_on_would_block() {
    assert_eq!(read_step(IoStatus::WouldBlock), IoAction::Wait(ReadyType::Readable));
    // NotConnected is treated like would-block, not as a failure
    assert_eq!(read_step(IoStatus::NotConnected), IoAction::Wait(ReadyType::Readable));
    assert_eq!(read_step(IoStatus::Done), IoAction::Return);
    assert_eq!(read_step(IoStatus::Failed), IoAction::Return);
}

#[test]
fn write_and_flush_wait_for_writability() {
    assert_eq!(write_step(IoStatus::WouldBlock), IoAction::Wait(ReadyType::Writable));
    assert_eq!(write_step(IoStatus::NotConnected), IoAction::Wait(ReadyType::Writable));
    assert_eq!(write_step(IoStatus::Done), IoAction::Return);
    assert_eq!(write_step(IoStatus::Failed), IoAction::Return);
    assert_eq!(flush_step(IoStatus::WouldBlock), IoAction::Wait(ReadyType::Writable));
    assert_eq!(flush_step(IoStatus::Done), IoAction::Return);
}

#[test]
fn sync_guard_yields_only_while_armed() {
    let guard = SyncGuard::new();
    assert!(guard.should_sched());
    let mut guard = SyncGuard::new();
    guard.disarm();
    assert!(!guard.should_sched());
}

#[test]
fn generic_evented_records_its_token() {
    let wrapped = GenericEvented::new(3);
    assert_eq!(wrapped.token, 3);
}
