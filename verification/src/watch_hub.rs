//! Watching keys: one poller per key, however many watch it.
//!
//! The first subscriber of a key starts its poller, and every change that the
//! poller sees is told to all subscribers of the key. The poller retires when
//! nobody listens any more. What is told names no holder.

use vstd::prelude::*;

use crate::error::Error;
use crate::table::Table;

verus! {

/// Cadence of each key's poller in milliseconds.
pub const WATCH_POLL_MS: u64 = 100;

/// Events that may wait for one subscriber; a slow one lags behind.
pub const SUBSCRIBER_DEPTH: usize = 16;

/// What happened to a key. The version is the fence counter.
#[derive(Clone, Copy, Debug, PartialEq, Eq, Structural)]
pub enum LockEvent {
    Acquired { version: u64 },
    Freed { version: u64 },
}

/// What is told when a key is seen held or free.
pub open spec fn event_of(held: bool, version: u64) -> LockEvent {
    if held {
        LockEvent::Acquired { version }
    } else {
        LockEvent::Freed { version }
    }
}

/// What is told when a key is seen held or free.
pub fn transition_event(held: bool, version: u64) -> (r: LockEvent)
    ensures
        r == event_of(held, version),
{
    if held {
        LockEvent::Acquired { version }
    } else {
        LockEvent::Freed { version }
    }
}

/// What is known of one watched key.
#[derive(Clone, Copy, Debug)]
pub struct Watched {
    /// Whether it was held, and its version, when that last changed; `None`
    /// until the first probe.
    pub state: Option<(bool, u64)>,
    /// How many listen.
    pub receivers: usize,
}

/// What a new subscriber finds.
#[derive(Clone, Copy, Debug, PartialEq, Eq, Structural)]
pub struct Subscribed {
    /// The key had no poller: start one.
    pub start_poller: bool,
    /// The state to begin with, when it is known.
    pub current: Option<LockEvent>,
}

/// What a poller does next.
#[derive(Clone, Copy, Debug, PartialEq, Eq, Structural)]
pub enum PollerStep {
    /// Nobody listens: stop.
    Retire,
    /// Look at the key.
    Probe,
}

/// What a new subscriber is told first.
pub open spec fn first_event(state: Option<(bool, u64)>) -> Option<LockEvent> {
    match state {
        Some((held, version)) => Some(event_of(held, version)),
        None => None,
    }
}

/// The state after a probe saw the key: it changes only when the key went from
/// held to free, from free to held, or is seen for the first time.
pub open spec fn after_probe(
    state: Option<(bool, u64)>,
    held: bool,
    version: u64,
) -> Option<(bool, u64)> {
    match state {
        Some((was, _)) => if was == held {
            state
        } else {
            Some((held, version))
        },
        None => Some((held, version)),
    }
}

/// The watched keys after one more subscriber of `key` came.
pub open spec fn place_taken(
    keys: Map<Seq<char>, Watched>,
    key: Seq<char>,
) -> Map<Seq<char>, Watched> {
    if keys.dom().contains(key) {
        keys.insert(
            key,
            Watched { receivers: (keys[key].receivers + 1) as usize, ..keys[key] },
        )
    } else {
        keys.insert(key, Watched { state: None, receivers: 1 })
    }
}

/// Somebody listens to `key`.
pub open spec fn listened(keys: Map<Seq<char>, Watched>, key: Seq<char>) -> bool {
    keys.dom().contains(key) && keys[key].receivers > 0
}

/// The watched keys after the poller of `key` asked what to do: a key that
/// nobody listens to is forgotten.
pub open spec fn after_poll(
    keys: Map<Seq<char>, Watched>,
    key: Seq<char>,
) -> Map<Seq<char>, Watched> {
    if listened(keys, key) {
        keys
    } else {
        keys.remove(key)
    }
}

/// The watched keys after a subscriber of `key` is gone.
pub open spec fn place_left(
    keys: Map<Seq<char>, Watched>,
    key: Seq<char>,
) -> Map<Seq<char>, Watched> {
    if listened(keys, key) {
        keys.insert(
            key,
            Watched { receivers: (keys[key].receivers - 1) as usize, ..keys[key] },
        )
    } else {
        keys
    }
}

/// The watched keys. A key stands in the table exactly while it has a poller.
#[derive(Debug)]
pub struct WatchHub {
    keys: Table<Watched>,
}

impl View for WatchHub {
    type V = Map<Seq<char>, Watched>;

    closed spec fn view(&self) -> Map<Seq<char>, Watched> {
        self.keys@
    }
}

impl WatchHub {
    /// A hub that watches nothing.
    pub fn new() -> (r: Self)
        ensures
            r@ == Map::<Seq<char>, Watched>::empty(),
    {
        WatchHub { keys: Table::new() }
    }

    /// Adds a subscriber of `key`.
    pub fn subscribe(&mut self, key: &str) -> (r: Subscribed)
        requires
            old(self)@.dom().contains(key@) ==> old(self)@[key@].receivers < usize::MAX,
        ensures
            r.start_poller == !old(self)@.dom().contains(key@),
            r.current == if old(self)@.dom().contains(key@) {
                first_event(old(self)@[key@].state)
            } else {
                None
            },
            final(self)@ == place_taken(old(self)@, key@),
    {
        let found = match self.keys.get(key) {
            Some(w) => Some(*w),
            None => None,
        };
        match found {
            Some(w) => {
                self.keys.insert(
                    key.to_owned(),
                    Watched { state: w.state, receivers: w.receivers + 1 },
                );
                let current = match w.state {
                    Some((held, version)) => Some(transition_event(held, version)),
                    None => None,
                };
                Subscribed { start_poller: false, current }
            },
            None => {
                self.keys.insert(key.to_owned(), Watched { state: None, receivers: 1 });
                Subscribed { start_poller: true, current: None }
            },
        }
    }

    /// A subscriber of `key` is gone.
    pub fn unsubscribe(&mut self, key: &str)
        ensures
            final(self)@ == place_left(old(self)@, key@),
    {
        let found = match self.keys.get(key) {
            Some(w) => Some(*w),
            None => None,
        };
        match found {
            Some(w) => if w.receivers > 0 {
                self.keys.insert(
                    key.to_owned(),
                    Watched { state: w.state, receivers: w.receivers - 1 },
                );
            },
            None => {},
        }
    }

    /// What the poller of `key` does next. It retires when nobody listens, and
    /// the key is forgotten with it.
    pub fn poll(&mut self, key: &str) -> (r: PollerStep)
        ensures
            r == if listened(old(self)@, key@) {
                PollerStep::Probe
            } else {
                PollerStep::Retire
            },
            final(self)@ == after_poll(old(self)@, key@),
    {
        let listening = match self.keys.get(key) {
            Some(w) => w.receivers > 0,
            None => false,
        };
        if listening {
            return PollerStep::Probe;
        }
        self.keys.remove(key);
        PollerStep::Retire
    }

    /// What the poller of `key` saw: whether the key is held, and its version.
    /// The event is to be told to all subscribers. A failed probe tells
    /// nothing.
    pub fn probed(&mut self, key: &str, seen: Result<(bool, u64), Error>) -> (r: Option<LockEvent>)
        ensures
            match seen {
                Ok((held, version)) if old(self)@.dom().contains(key@) => {
                    let w = old(self)@[key@];
                    let after = after_probe(w.state, held, version);
                    &&& final(self)@ == old(self)@.insert(key@, Watched { state: after, ..w })
                    &&& r == if after == w.state {
                        None
                    } else {
                        Some(event_of(held, version))
                    }
                },
                _ => r is None && final(self)@ == old(self)@,
            },
    {
        let ghost before = self@;
        let (held, version) = match seen {
            Ok(s) => s,
            Err(_) => {
                return None;
            },
        };
        let found = match self.keys.get(key) {
            Some(w) => Some(*w),
            None => None,
        };
        match found {
            None => None,
            Some(w) => {
                let changed = match w.state {
                    Some((was, _)) => was != held,
                    None => true,
                };
                if !changed {
                    proof {
                        assert(before.insert(key@, w) =~= before);
                    }
                    return None;
                }
                self.keys.insert(
                    key.to_owned(),
                    Watched { state: Some((held, version)), receivers: w.receivers },
                );
                Some(transition_event(held, version))
            },
        }
    }
}

/// What happens to a hub.
pub enum HubOp {
    /// A subscriber of the key comes.
    Subscribe(Seq<char>),
    /// A subscriber of the key leaves.
    Leave(Seq<char>),
    /// A poller of the key asks what to do.
    Poll(Seq<char>),
}

/// The watched keys after `ops`, starting from none.
pub open spec fn after_hub_ops(ops: Seq<HubOp>) -> Map<Seq<char>, Watched>
    decreases ops.len(),
{
    if ops.len() == 0 {
        Map::empty()
    } else {
        let before = after_hub_ops(ops.drop_last());
        match ops.last() {
            HubOp::Subscribe(k) => place_taken(before, k),
            HubOp::Leave(k) => place_left(before, k),
            HubOp::Poll(k) => after_poll(before, k),
        }
    }
}

/// How many pollers of `key` run after `ops`: a subscriber that finds the key
/// unwatched starts one, and one that finds nobody listening retires.
pub open spec fn pollers(ops: Seq<HubOp>, key: Seq<char>) -> int
    decreases ops.len(),
{
    if ops.len() == 0 {
        0
    } else {
        let before = after_hub_ops(ops.drop_last());
        pollers(ops.drop_last(), key) + match ops.last() {
            HubOp::Subscribe(k) => if k == key && !before.dom().contains(k) {
                1int
            } else {
                0
            },
            HubOp::Leave(_) => 0,
            HubOp::Poll(k) => if k == key && before.dom().contains(k) && !listened(before, k) {
                -1
            } else {
                0
            },
        }
    }
}

/// A watched key has one poller, however many watch it, and a key that is not
/// watched has none.
pub proof fn watched_keys_have_one_poller(ops: Seq<HubOp>, key: Seq<char>)
    ensures
        pollers(ops, key) == if after_hub_ops(ops).dom().contains(key) {
            1int
        } else {
            0
        },
    decreases ops.len(),
{
    if ops.len() > 0 {
        watched_keys_have_one_poller(ops.drop_last(), key);
    }
}

/// The state after a run of probes, each telling whether the key is held and
/// its version.
pub open spec fn after_probes(probes: Seq<(bool, u64)>) -> Option<(bool, u64)>
    decreases probes.len(),
{
    if probes.len() == 0 {
        None
    } else {
        after_probe(after_probes(probes.drop_last()), probes.last().0, probes.last().1)
    }
}

/// What subscribers are told over a run of probes, in order.
pub open spec fn told_over(probes: Seq<(bool, u64)>) -> Seq<LockEvent>
    decreases probes.len(),
{
    if probes.len() == 0 {
        seq![]
    } else {
        let before = after_probes(probes.drop_last());
        let told = told_over(probes.drop_last());
        if after_probes(probes) == before {
            told
        } else {
            told.push(event_of(probes.last().0, probes.last().1))
        }
    }
}

/// Subscribers are told every change and nothing but changes: what they were
/// last told is what the last probe saw, and no two events in a row say the
/// same.
pub proof fn watchers_are_told_exactly_the_changes(probes: Seq<(bool, u64)>)
    ensures
        told_over(probes).len() == 0 <==> probes.len() == 0,
        probes.len() > 0 ==> (told_over(probes).last() is Acquired) == probes.last().0,
        forall|i: int|
            0 < i < told_over(probes).len() ==> (#[trigger] told_over(probes)[i] is Acquired) != (
            told_over(probes)[i - 1] is Acquired),
        match after_probes(probes) {
            Some((held, version)) => told_over(probes).len() > 0 && told_over(probes).last()
                == event_of(held, version),
            None => probes.len() == 0,
        },
    decreases probes.len(),
{
    if probes.len() > 0 {
        let rest = probes.drop_last();
        watchers_are_told_exactly_the_changes(rest);
        let told = told_over(rest);
        let all = told_over(probes);
        assert forall|i: int| 0 < i < all.len() implies (#[trigger] all[i] is Acquired) != (all[i
            - 1] is Acquired) by {
            if i < told.len() {
                assert(all[i] == told[i]);
                assert(all[i - 1] == told[i - 1]);
            } else {
                assert(all[i - 1] == told.last());
            }
        }
    }
}

} // verus!
