//! From recorded traffic to checkable histories.
//!
//! Operations recorded by clients are turned, key by key, into the events of a
//! history, which is then held against the invariants of a lock.

use vstd::prelude::*;

use crate::text::same;

verus! {

/// What a client did.
#[derive(Clone, Copy, Debug, PartialEq, Eq, Structural)]
pub enum OpKind {
    TryAcquire,
    Release,
    Extend,
}

/// One recorded operation.
#[derive(Debug)]
pub struct HistoryEntry {
    pub key: String,
    pub op: OpKind,
    pub ok: bool,
    pub fence: u64,
    /// When it completed, in microseconds.
    pub end_us: u64,
}

/// What an operation means for the history of its key.
#[derive(Clone, Copy, Debug, PartialEq, Eq, Structural)]
pub enum EventKind {
    Grant,
    Deny,
    ReleaseOk,
    ReleaseLost,
}

/// One event of a history.
#[derive(Clone, Copy, Debug, PartialEq, Eq, Structural)]
pub struct Event {
    pub t_ms: u64,
    /// The holder: its fence doubles as its identity.
    pub worker: usize,
    pub kind: EventKind,
    pub fence: u64,
}

/// One event with the time at which its operation completed, in microseconds.
#[derive(Clone, Copy, Debug, PartialEq, Eq, Structural)]
pub struct Completed {
    pub end_us: u64,
    pub event: Event,
}

/// The event of an operation; an extension is none, as it changes no holder.
pub open spec fn kind_of(op: OpKind, ok: bool) -> Option<EventKind> {
    match op {
        OpKind::TryAcquire => Some(
            if ok {
                EventKind::Grant
            } else {
                EventKind::Deny
            },
        ),
        OpKind::Release => Some(
            if ok {
                EventKind::ReleaseOk
            } else {
                EventKind::ReleaseLost
            },
        ),
        OpKind::Extend => None,
    }
}

/// The events of `key` among `entries`, in the order of the entries.
pub open spec fn events_of(key: Seq<char>, entries: Seq<HistoryEntry>) -> Seq<Completed>
    decreases entries.len(),
{
    if entries.len() == 0 {
        seq![]
    } else {
        let before = events_of(key, entries.drop_last());
        let e = entries.last();
        match kind_of(e.op, e.ok) {
            Some(kind) => if e.key@ == key {
                before.push(
                    Completed {
                        end_us: e.end_us,
                        event: Event {
                            t_ms: e.end_us / 1_000,
                            worker: e.fence as usize,
                            kind,
                            fence: e.fence,
                        },
                    },
                )
            } else {
                before
            },
            None => before,
        }
    }
}

/// `e` put behind the last event of `sorted` that is not later.
pub open spec fn placed(sorted: Seq<Completed>, e: Completed) -> Seq<Completed>
    decreases sorted.len(),
{
    if sorted.len() == 0 || sorted.last().end_us <= e.end_us {
        sorted.push(e)
    } else {
        placed(sorted.drop_last(), e).push(sorted.last())
    }
}

/// The events in the order in which their operations completed, those that
/// completed at one time in the order in which they stand.
pub open spec fn in_time_order(events: Seq<Completed>) -> Seq<Completed>
    decreases events.len(),
{
    if events.len() == 0 {
        seq![]
    } else {
        placed(in_time_order(events.drop_last()), events.last())
    }
}

/// The history of `key` that `entries` tell: its events in the order of their
/// completion.
pub open spec fn history_of(key: Seq<char>, entries: Seq<HistoryEntry>) -> Seq<Event> {
    in_time_order(events_of(key, entries)).map_values(|c: Completed| c.event)
}

/// The events of `key` among `entries`.
fn convert(key: &str, entries: &Vec<HistoryEntry>) -> (r: Vec<Completed>)
    ensures
        r@ == events_of(key@, entries@),
{
    let mut out: Vec<Completed> = Vec::new();
    let mut i: usize = 0;
    while i < entries.len()
        invariant
            0 <= i <= entries@.len(),
            out@ == events_of(key@, entries@.take(i as int)),
        decreases entries@.len() - i,
    {
        let e = &entries[i];
        proof {
            assert(entries@.take(i + 1).drop_last() =~= entries@.take(i as int));
            assert(entries@.take(i + 1).last() == *e);
        }
        if same(e.key.as_str(), key) {
            let kind = match e.op {
                OpKind::TryAcquire => Some(
                    if e.ok {
                        EventKind::Grant
                    } else {
                        EventKind::Deny
                    },
                ),
                OpKind::Release => Some(
                    if e.ok {
                        EventKind::ReleaseOk
                    } else {
                        EventKind::ReleaseLost
                    },
                ),
                OpKind::Extend => None,
            };
            match kind {
                Some(kind) => {
                    out.push(
                        Completed {
                            end_us: e.end_us,
                            event: Event {
                                t_ms: e.end_us / 1_000,
                                worker: e.fence as usize,
                                kind,
                                fence: e.fence,
                            },
                        },
                    );
                },
                None => {},
            }
        }
        i += 1;
    }
    proof {
        assert(entries@.take(entries@.len() as int) =~= entries@);
    }
    out
}

/// Where an event is put: behind the first `p` events.
proof fn lemma_placed(sorted: Seq<Completed>, e: Completed, p: int)
    requires
        0 <= p <= sorted.len(),
        forall|j: int| p <= j < sorted.len() ==> (#[trigger] sorted[j]).end_us > e.end_us,
        p > 0 ==> sorted[p - 1].end_us <= e.end_us,
    ensures
        placed(sorted, e) == sorted.insert(p, e),
    decreases sorted.len(),
{
    if p == sorted.len() {
        assert(sorted.insert(p, e) =~= sorted.push(e));
    } else {
        lemma_placed(sorted.drop_last(), e, p);
        assert(sorted.drop_last().insert(p, e).push(sorted.last()) =~= sorted.insert(p, e));
    }
}

/// The events in the order of their completion.
fn sort_by_time(events: &Vec<Completed>) -> (r: Vec<Completed>)
    ensures
        r@ == in_time_order(events@),
{
    let mut out: Vec<Completed> = Vec::new();
    let mut i: usize = 0;
    while i < events.len()
        invariant
            0 <= i <= events@.len(),
            out@ == in_time_order(events@.take(i as int)),
        decreases events@.len() - i,
    {
        let e = events[i];
        let mut p: usize = out.len();
        while p > 0 && out[p - 1].end_us > e.end_us
            invariant
                0 <= p <= out@.len(),
                forall|j: int| p <= j < out@.len() ==> (#[trigger] out@[j]).end_us > e.end_us,
            decreases p,
        {
            p -= 1;
        }
        proof {
            lemma_placed(out@, e, p as int);
            assert(events@.take(i + 1).drop_last() =~= events@.take(i as int));
            assert(events@.take(i + 1).last() == e);
        }
        out.insert(p, e);
        i += 1;
    }
    proof {
        assert(events@.take(events@.len() as int) =~= events@);
    }
    out
}

/// The events without the times of their completion.
fn events_alone(sorted: &Vec<Completed>) -> (r: Vec<Event>)
    ensures
        r@ == sorted@.map_values(|c: Completed| c.event),
{
    let mut out: Vec<Event> = Vec::new();
    let mut i: usize = 0;
    while i < sorted.len()
        invariant
            0 <= i <= sorted@.len(),
            out@.len() == i,
            forall|j: int| 0 <= j < i ==> #[trigger] out@[j] == sorted@[j].event,
        decreases sorted@.len() - i,
    {
        out.push(sorted[i].event);
        i += 1;
    }
    proof {
        assert(out@ =~= sorted@.map_values(|c: Completed| c.event));
    }
    out
}

/// Holds the recorded operations on `key` against the invariants that `check`
/// tests, for clients that worked with leases of `ttl_ms`. The history is in
/// the order in which operations completed.
pub fn check_client_history<X, F: Fn(&Vec<Event>, u64) -> Result<(), X>>(
    key: &str,
    entries: &Vec<HistoryEntry>,
    ttl_ms: u64,
    check: F,
) -> (r: Result<(), X>)
    requires
        forall|events: Vec<Event>| call_requires(check, (&events, ttl_ms)),
    ensures
        exists|events: Vec<Event>|
            events@ == history_of(key@, entries@) && #[trigger] call_ensures(
                check,
                (&events, ttl_ms),
                r,
            ),
{
    let events = events_alone(&sort_by_time(&convert(key, entries)));
    check(&events, ttl_ms)
}

/// A history runs forward: its events stand in the order in which their
/// operations completed, none is lost and none is added.
pub proof fn histories_run_forward(events: Seq<Completed>)
    ensures
        forall|i: int, j: int|
            0 <= i < j < in_time_order(events).len() ==> (#[trigger] in_time_order(events)[i]).end_us
                <= (#[trigger] in_time_order(events)[j]).end_us,
        in_time_order(events).to_multiset() == events.to_multiset(),
    decreases events.len(),
{
    if events.len() > 0 {
        let rest = events.drop_last();
        histories_run_forward(rest);
        lemma_placed_in_order(in_time_order(rest), events.last());
        vstd::seq_lib::to_multiset_build(rest, events.last());
        assert(rest.push(events.last()) =~= events);
    } else {
        assert(events =~= seq![]);
    }
}

/// Placing keeps the order and adds just the one event.
proof fn lemma_placed_in_order(sorted: Seq<Completed>, e: Completed)
    requires
        forall|i: int, j: int|
            0 <= i < j < sorted.len() ==> (#[trigger] sorted[i]).end_us <= (
            #[trigger] sorted[j]).end_us,
    ensures
        forall|i: int, j: int|
            0 <= i < j < placed(sorted, e).len() ==> (#[trigger] placed(sorted, e)[i]).end_us <= (
            #[trigger] placed(sorted, e)[j]).end_us,
        forall|i: int|
            0 <= i < placed(sorted, e).len() ==> (#[trigger] placed(sorted, e)[i]).end_us <= (
            if sorted.len() > 0 && sorted.last().end_us > e.end_us {
                sorted.last().end_us
            } else {
                e.end_us
            }),
        placed(sorted, e).to_multiset() == sorted.to_multiset().insert(e),
    decreases sorted.len(),
{
    vstd::seq_lib::to_multiset_build(sorted, e);
    if sorted.len() > 0 && sorted.last().end_us > e.end_us {
        let rest = sorted.drop_last();
        lemma_placed_in_order(rest, e);
        let sub = placed(rest, e);
        vstd::seq_lib::to_multiset_build(sub, sorted.last());
        vstd::seq_lib::to_multiset_build(rest, sorted.last());
        assert(rest.push(sorted.last()) =~= sorted);
        assert(rest.to_multiset().insert(e).insert(sorted.last()) =~= rest.to_multiset().insert(
            sorted.last(),
        ).insert(e));
    }
}

} // verus!
