//! Histories of recorded traffic.

use palisade::realtime::{check_client_history, Event, EventKind, HistoryEntry, OpKind};

fn entry(key: &str, op: OpKind, ok: bool, fence: u64, end_us: u64) -> HistoryEntry {
    HistoryEntry { key: key.into(), op, ok, fence, end_us }
}

fn history(key: &str, entries: &Vec<HistoryEntry>) -> Vec<Event> {
    match check_client_history(key, entries, 500, |events: &Vec<Event>, ttl_ms: u64| {
        assert_eq!(ttl_ms, 500);
        Err::<(), Vec<Event>>(events.clone())
    }) {
        Err(events) => events,
        Ok(()) => unreachable!(),
    }
}

#[test]
fn operations_become_events_in_order_of_completion() {
    let entries = vec![
        entry("k", OpKind::Release, true, 1, 5_999),
        entry("other", OpKind::TryAcquire, true, 9, 1_000),
        entry("k", OpKind::TryAcquire, true, 1, 2_500),
        entry("k", OpKind::Extend, true, 1, 3_000),
        entry("k", OpKind::TryAcquire, false, 0, 2_600),
        entry("k", OpKind::Release, false, 2, 7_000),
    ];
    let events = history("k", &entries);
    let told: Vec<(u64, EventKind, u64, usize)> =
        events.iter().map(|e| (e.t_ms, e.kind, e.fence, e.worker)).collect();
    assert_eq!(
        told,
        [
            (2, EventKind::Grant, 1, 1),
            (2, EventKind::Deny, 0, 0),
            (5, EventKind::ReleaseOk, 1, 1),
            (7, EventKind::ReleaseLost, 2, 2),
        ]
    );
}

#[test]
fn operations_of_one_millisecond_keep_their_order() {
    let entries = vec![
        entry("k", OpKind::TryAcquire, true, 1, 500),
        entry("k", OpKind::TryAcquire, true, 2, 1_900),
        entry("k", OpKind::Release, true, 1, 1_100),
    ];
    let told: Vec<(u64, EventKind, u64)> =
        history("k", &entries).iter().map(|e| (e.t_ms, e.kind, e.fence)).collect();
    assert_eq!(
        told,
        [
            (0, EventKind::Grant, 1),
            (1, EventKind::ReleaseOk, 1),
            (1, EventKind::Grant, 2),
        ]
    );
}

#[test]
fn verdicts_are_passed_on() {
    let none: Vec<HistoryEntry> = Vec::new();
    assert!(history("k", &none).is_empty());
    assert_eq!(
        check_client_history("k", &none, 1, |_: &Vec<Event>, _: u64| Ok::<(), u8>(())),
        Ok(())
    );
    assert_eq!(
        check_client_history("k", &none, 1, |_: &Vec<Event>, _: u64| Err::<(), u8>(3)),
        Err(3)
    );
}
