//! The notification protocol end to end, without any transport: a batch of
//! filesystem events decides a broadcast, the broadcast wakes the suspended
//! long-poll requests, and each woken request answers `yes`.

use grup::registry::WaiterRegistry;
use grup::respond::wake_response;
use grup::watch::ChangeEvent;
use grup::watch::EventKind;
use grup::watch::batch_should_broadcast;

#[test]
fn modification_wakes_the_outstanding_long_poll() {
    let mut reg = WaiterRegistry::new();
    // one long-poll request outstanding
    let mut rx = reg.register();

    // the watched file is modified
    let batch = vec![ChangeEvent {
        name: Some("README.md".to_string()),
        kind: EventKind::Modified,
    }];
    assert!(batch_should_broadcast(&batch, "README.md"));
    assert_eq!(reg.broadcast(), 1);

    // the request resumes and its response body is exactly "yes"
    assert_eq!(rx.try_recv(), Ok(Some(())));
    let r = wake_response();
    assert_eq!(r.status, 200);
    assert_eq!(r.body, "yes");
}

#[test]
fn one_change_wakes_both_long_polls() {
    let mut reg = WaiterRegistry::new();
    // two simultaneous long-poll requests
    let mut rx1 = reg.register();
    let mut rx2 = reg.register();

    let batch = vec![ChangeEvent {
        name: Some("README.md".to_string()),
        kind: EventKind::Created,
    }];
    assert!(batch_should_broadcast(&batch, "README.md"));
    assert_eq!(reg.broadcast(), 2);

    // both of them receive the signal, not just one
    assert_eq!(rx1.try_recv(), Ok(Some(())));
    assert_eq!(rx2.try_recv(), Ok(Some(())));
    assert_eq!(wake_response().body, "yes");
    assert_eq!(wake_response().body, "yes");
}

#[test]
fn unrelated_change_wakes_nobody() {
    let mut reg = WaiterRegistry::new();
    let mut rx = reg.register();

    let batch = vec![ChangeEvent {
        name: Some("notes.txt".to_string()),
        kind: EventKind::Modified,
    }];
    // the decision is negative, so no broadcast happens at all
    assert!(!batch_should_broadcast(&batch, "README.md"));
    assert_eq!(rx.try_recv(), Ok(None));
    assert_eq!(reg.pending(), 1);
}
