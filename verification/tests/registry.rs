use futures_channel::oneshot;
use grup::registry::WaiterRegistry;
use grup::registry::signal_all;

#[test]
fn broadcast_wakes_all_registered() {
    let mut reg = WaiterRegistry::new();
    let mut rx1 = reg.register();
    let mut rx2 = reg.register();
    assert_eq!(reg.pending(), 2);
    assert_eq!(rx1.try_recv(), Ok(None));
    assert_eq!(rx2.try_recv(), Ok(None));
    let n = reg.broadcast();
    assert_eq!(n, 2);
    assert_eq!(reg.pending(), 0);
    assert_eq!(rx1.try_recv(), Ok(Some(())));
    assert_eq!(rx2.try_recv(), Ok(Some(())));
}

#[test]
fn no_waiter_is_woken_twice() {
    let mut reg = WaiterRegistry::new();
    let mut rx = reg.register();
    assert_eq!(reg.broadcast(), 1);
    assert_eq!(rx.try_recv(), Ok(Some(())));
    // a second broadcast finds nothing pending and delivers nothing more
    assert_eq!(reg.broadcast(), 0);
    assert!(!matches!(rx.try_recv(), Ok(Some(_))));
}

#[test]
fn late_registration_stays_pending() {
    let mut reg = WaiterRegistry::new();
    let mut rx1 = reg.register();
    assert_eq!(reg.broadcast(), 1);
    assert_eq!(rx1.try_recv(), Ok(Some(())));
    // registered only after the drain: untouched by that broadcast
    let mut rx2 = reg.register();
    assert_eq!(rx2.try_recv(), Ok(None));
    assert_eq!(reg.pending(), 1);
    // and woken by the next one
    assert_eq!(reg.broadcast(), 1);
    assert_eq!(rx2.try_recv(), Ok(Some(())));
}

#[test]
fn drain_then_signal_outside_lock() {
    let mut reg = WaiterRegistry::new();
    let (tx, mut rx) = oneshot::channel::<()>();
    reg.register_sender(tx);
    let drained = reg.drain_waiters();
    assert_eq!(drained.len(), 1);
    assert_eq!(reg.pending(), 0);
    // captured but not yet signaled: the wait side is still pending
    assert_eq!(rx.try_recv(), Ok(None));
    signal_all(drained);
    assert_eq!(rx.try_recv(), Ok(Some(())));
}

#[test]
fn signaling_disconnected_waiter_is_noop() {
    let mut reg = WaiterRegistry::new();
    let rx = reg.register();
    drop(rx);
    // the abandoned handle is still drained, and signaling it is harmless
    assert_eq!(reg.broadcast(), 1);
    assert_eq!(reg.pending(), 0);
}

#[test]
fn new_registry_is_empty() {
    let mut reg = WaiterRegistry::new();
    assert_eq!(reg.pending(), 0);
    assert_eq!(reg.broadcast(), 0);
}
