//! Sessions: liveness that the server decides.
//!
//! Locks acquired under a session are recorded with it, heartbeats keep it
//! alive, and a sweep releases every lock of a session whose heartbeats have
//! stopped. A crashed client's locks die within its lease and one sweep.
//!
//! Times are read off one clock that counts nanoseconds.

use vstd::prelude::*;

use crate::command::{texts, Invocation};
use crate::error::Error;
use crate::owner::OwnerId;
use crate::single::{farewell_calls, release_call, release_invocation, Farewell};
use crate::span::{elapsed_between, Span};
use crate::table::Table;

verus! {

/// Sweep cadence in milliseconds.
pub const SWEEP_INTERVAL_MS: u64 = 500;

/// Heartbeats closer together than this fraction of the lease are refused.
pub const HEARTBEAT_FLOOR_DIVISOR: u32 = 20;

/// The sweep cadence in nanoseconds.
pub open spec fn sweep_interval() -> nat {
    500_000_000
}

/// One session.
#[derive(Debug)]
pub struct SessionEntry {
    pub client_id: String,
    pub ttl: Span,
    pub last_seen: u128,
    /// The locks bound to the session: key and owner token.
    pub locks: Vec<(String, String)>,
}

/// One session over sequences, times in nanoseconds.
pub struct SessionV {
    pub client_id: Seq<char>,
    pub ttl: nat,
    pub last_seen: u128,
    pub locks: Seq<(Seq<char>, Seq<char>)>,
}

/// Bound locks over sequences.
pub open spec fn bound(locks: Seq<(String, String)>) -> Seq<(Seq<char>, Seq<char>)> {
    locks.map_values(|l: (String, String)| (l.0@, l.1@))
}

impl View for SessionEntry {
    type V = SessionV;

    open spec fn view(&self) -> SessionV {
        SessionV {
            client_id: self.client_id@,
            ttl: self.ttl@,
            last_seen: self.last_seen,
            locks: bound(self.locks@),
        }
    }
}

/// How long a session has been silent at `now`.
pub open spec fn silent_for(s: SessionV, now: u128) -> nat {
    if now >= s.last_seen {
        (now - s.last_seen) as nat
    } else {
        0
    }
}

/// A session whose silence exceeds its lease.
pub open spec fn expired(s: SessionV, now: u128) -> bool {
    silent_for(s, now) > s.ttl
}

impl SessionEntry {
    fn silence(&self, now: u128) -> (r: u128)
        ensures
            r == silent_for(self@, now),
    {
        elapsed_between(self.last_seen, now)
    }

    /// Whether the silence at `now` exceeds the lease.
    pub fn expired(&self, now: u128) -> (r: bool)
        ensures
            r == expired(self@, now),
    {
        self.silence(now) > self.ttl.as_nanos()
    }
}

/// How a heartbeat is answered.
#[derive(Clone, Copy, Debug, PartialEq, Eq, Structural)]
pub enum HbResult {
    /// The session lives on.
    Accepted,
    /// The heartbeat came too soon after the last sign of life.
    RateLimited,
    /// There is no such session.
    Unknown,
}

/// What a sweep takes away.
#[derive(Debug)]
pub struct Eviction {
    pub token: String,
    pub client_id: String,
    /// The locks to release.
    pub locks: Vec<(String, String)>,
}

impl Eviction {
    /// This is the eviction of the session `s` under `token`.
    pub open spec fn of(self, token: Seq<char>, s: SessionV) -> bool {
        self.token@ == token && self.client_id@ == s.client_id && bound(self.locks@) == s.locks
    }
}

/// The live sessions by token.
#[derive(Debug)]
pub struct SessionBook {
    table: Table<SessionEntry>,
}

spec fn sessions(m: Map<Seq<char>, SessionEntry>) -> Map<Seq<char>, SessionV> {
    m.map_values(|e: SessionEntry| e@)
}

impl View for SessionBook {
    type V = Map<Seq<char>, SessionV>;

    closed spec fn view(&self) -> Map<Seq<char>, SessionV> {
        sessions(self.table@)
    }
}

/// How a heartbeat at `now` under `token` is answered.
pub open spec fn heartbeat_answer(
    book: Map<Seq<char>, SessionV>,
    token: Seq<char>,
    now: u128,
) -> HbResult {
    if !book.dom().contains(token) {
        HbResult::Unknown
    } else if silent_for(book[token], now) < book[token].ttl / 20 {
        HbResult::RateLimited
    } else {
        HbResult::Accepted
    }
}

/// The sessions after a heartbeat at `now` under `token`: an accepted one is a
/// sign of life, any other changes nothing.
pub open spec fn after_heartbeat(
    book: Map<Seq<char>, SessionV>,
    token: Seq<char>,
    now: u128,
) -> Map<Seq<char>, SessionV> {
    if heartbeat_answer(book, token, now) == HbResult::Accepted {
        book.insert(token, SessionV { last_seen: now, ..book[token] })
    } else {
        book
    }
}

/// The sessions after a lock was bound at `now` to the one under `token`, if
/// there is one.
pub open spec fn after_bind(
    book: Map<Seq<char>, SessionV>,
    token: Seq<char>,
    key: Seq<char>,
    lock_token: Seq<char>,
    now: u128,
) -> Map<Seq<char>, SessionV> {
    if book.dom().contains(token) {
        book.insert(
            token,
            SessionV {
                last_seen: now,
                locks: book[token].locks.push((key, lock_token)),
                ..book[token]
            },
        )
    } else {
        book
    }
}

/// The locks bound to the session under `token`; none where there is no such
/// session.
pub open spec fn bound_under(
    book: Map<Seq<char>, SessionV>,
    token: Seq<char>,
) -> Seq<(Seq<char>, Seq<char>)> {
    if book.dom().contains(token) {
        book[token].locks
    } else {
        seq![]
    }
}

/// `calls` release `locks` explicitly, one by one in order.
pub open spec fn bid_farewell(
    locks: Seq<(Seq<char>, Seq<char>)>,
    calls: Seq<Farewell>,
) -> bool {
    &&& calls.len() == locks.len()
    &&& forall|i: int|
        0 <= i < calls.len() ==> (#[trigger] calls[i]).bids(locks[i].0, locks[i].1)
}

/// What to send to release `locks` explicitly, as when their session is closed:
/// the wills go with them.
pub fn farewells(locks: &Vec<(String, String)>) -> (r: Vec<Farewell>)
    ensures
        bid_farewell(bound(locks@), r@),
{
    let mut out: Vec<Farewell> = Vec::new();
    let mut i: usize = 0;
    while i < locks.len()
        invariant
            0 <= i <= locks@.len(),
            out@.len() == i,
            forall|j: int|
                0 <= j < i ==> (#[trigger] out@[j]).bids(bound(locks@)[j].0, bound(locks@)[j].1),
        decreases locks@.len() - i,
    {
        out.push(farewell_calls(locks[i].0.as_str(), locks[i].1.as_str()));
        i += 1;
    }
    out
}

/// What to send to release `locks` of a session that died: the wills stay for
/// the successors.
pub fn evictions(locks: &Vec<(String, String)>) -> (r: Vec<Invocation>)
    ensures
        r@.len() == locks@.len(),
        forall|i: int|
            0 <= i < r@.len() ==> (#[trigger] r@[i])@ == release_call(
                locks@[i].0@,
                locks@[i].1@,
            ),
{
    let mut out: Vec<Invocation> = Vec::new();
    let mut i: usize = 0;
    while i < locks.len()
        invariant
            0 <= i <= locks@.len(),
            out@.len() == i,
            forall|j: int|
                0 <= j < i ==> (#[trigger] out@[j])@ == release_call(locks@[j].0@, locks@[j].1@),
        decreases locks@.len() - i,
    {
        out.push(release_invocation(locks[i].0.as_str(), locks[i].1.as_str()));
        i += 1;
    }
    out
}

impl SessionBook {
    /// A book without sessions.
    pub fn new() -> (r: Self)
        ensures
            r@ == Map::<Seq<char>, SessionV>::empty(),
    {
        let r = SessionBook { table: Table::new() };
        proof {
            assert(r@ =~= Map::<Seq<char>, SessionV>::empty());
        }
        r
    }

    /// Opens a session for `client_id` at `now` under a fresh token.
    pub fn register(&mut self, client_id: String, ttl: Span, now: u128) -> (r: String)
        ensures
            exists|owner: OwnerId| owner.minted() && r@ == #[trigger] owner.token_text(),
            final(self)@ == old(self)@.insert(
                r@,
                SessionV { client_id: client_id@, ttl: ttl@, last_seen: now, locks: seq![] },
            ),
    {
        self.register_as(OwnerId::generate(), client_id, ttl, now)
    }

    /// Opens a session for `client_id` at `now` under the token of `owner`.
    pub fn register_as(&mut self, owner: OwnerId, client_id: String, ttl: Span, now: u128) -> (r:
        String)
        ensures
            r@ == owner.token_text(),
            final(self)@ == old(self)@.insert(
                r@,
                SessionV { client_id: client_id@, ttl: ttl@, last_seen: now, locks: seq![] },
            ),
    {
        let token = owner.token();
        let ghost before = self@;
        let entry = SessionEntry { client_id, ttl, last_seen: now, locks: Vec::new() };
        let ghost e = entry@;
        proof {
            assert(e.locks =~= seq![]);
        }
        self.table.insert(token.clone(), entry);
        proof {
            assert(self@ =~= before.insert(token@, e));
        }
        token
    }

    /// A sign of life at `now`. One that comes sooner than a twentieth of the
    /// lease after the last one is refused and changes nothing.
    pub fn heartbeat(&mut self, token: &str, now: u128) -> (r: HbResult)
        ensures
            r == heartbeat_answer(old(self)@, token@, now),
            final(self)@ == after_heartbeat(old(self)@, token@, now),
    {
        let ghost before = self@;
        let limited = match self.table.get(token) {
            None => {
                return HbResult::Unknown;
            },
            Some(entry) => {
                let floor = entry.ttl.divided_by(HEARTBEAT_FLOOR_DIVISOR);
                entry.silence(now) < floor.as_nanos()
            },
        };
        if limited {
            return HbResult::RateLimited;
        }
        match self.table.remove(token) {
            Some(entry) => {
                let mut entry = entry;
                entry.last_seen = now;
                let ghost e = entry@;
                self.table.insert(token.to_owned(), entry);
                proof {
                    assert(self@ =~= before.insert(token@, e));
                }
            },
            None => {},
        }
        HbResult::Accepted
    }

    /// Binds a lock to a session, which counts as a sign of life at `now`.
    /// False where there is no such session.
    pub fn bind(&mut self, token: &str, key: &str, lock_token: &str, now: u128) -> (r: bool)
        ensures
            r == old(self)@.dom().contains(token@),
            final(self)@ == after_bind(old(self)@, token@, key@, lock_token@, now),
    {
        let ghost before = self@;
        match self.table.remove(token) {
            Some(entry) => {
                let mut entry = entry;
                let ghost was = entry@;
                entry.last_seen = now;
                entry.locks.push((key.to_owned(), lock_token.to_owned()));
                let ghost e = entry@;
                self.table.insert(token.to_owned(), entry);
                proof {
                    assert(e.locks =~= was.locks.push((key@, lock_token@)));
                    assert(self@ =~= before.insert(token@, e));
                }
                true
            },
            None => {
                proof {
                    assert(self@ =~= before);
                }
                false
            },
        }
    }

    /// Ends a session and hands out the locks bound to it, which are to be
    /// released; none where there is no such session.
    pub fn close(&mut self, token: &str) -> (r: Vec<(String, String)>)
        ensures
            final(self)@ == old(self)@.remove(token@),
            bound(r@) == bound_under(old(self)@, token@),
    {
        let ghost before = self@;
        let removed = self.table.remove(token);
        proof {
            assert(self@ =~= before.remove(token@));
        }
        match removed {
            Some(entry) => entry.locks,
            None => {
                let none: Vec<(String, String)> = Vec::new();
                proof {
                    assert(bound(none@) =~= seq![]);
                }
                none
            },
        }
    }

    /// One sweep at `now`: ends every expired session and hands out what was
    /// bound to it.
    pub fn sweep_once(&mut self, now: u128) -> (r: Vec<Eviction>)
        ensures
            forall|t: Seq<char>| #[trigger]
                final(self)@.dom().contains(t) <==> old(self)@.dom().contains(t) && !expired(
                    old(self)@[t],
                    now,
                ),
            forall|t: Seq<char>| #[trigger]
                final(self)@.dom().contains(t) ==> final(self)@[t] == old(self)@[t],
            swept(old(self)@, now, r@),
    {
        let ghost book = self@;
        let tokens = self.table.keys();
        let ghost ts = texts(tokens@);
        let mut out: Vec<Eviction> = Vec::new();
        let mut i: usize = 0;
        while i < tokens.len()
            invariant
                0 <= i <= tokens@.len(),
                ts == texts(tokens@),
                ts.no_duplicates(),
                forall|t: Seq<char>| #[trigger] ts.contains(t) <==> book.dom().contains(t),
                forall|t: Seq<char>| #[trigger]
                    self@.dom().contains(t) <==> book.dom().contains(t) && !(expired(book[t], now)
                        && ts.take(i as int).contains(t)),
                forall|t: Seq<char>| #[trigger]
                    self@.dom().contains(t) ==> self@[t] == book[t],
                forall|j: int| 0 <= j < out@.len() ==> evicts(book, now, #[trigger] out@[j]),
                forall|j: int|
                    0 <= j < out@.len() ==> ts.take(i as int).contains(
                        (#[trigger] out@[j]).token@,
                    ),
                forall|j: int, k: int|
                    0 <= j < k < out@.len() ==> (#[trigger] out@[j]).token@ != (
                    #[trigger] out@[k]).token@,
                forall|k: int|
                    #![trigger ts[k]]
                    0 <= k < i && expired(book[ts[k]], now) ==> evicted(out@, ts[k]),
            decreases tokens@.len() - i,
        {
            let token = tokens[i].as_str();
            let ghost t = ts[i as int];
            let ghost seen = ts.take(i as int);
            let ghost mid = self@;
            let ghost sent = out@;
            proof {
                assert(token@ == t);
                assert(ts.contains(t));
                assert(!seen.contains(t)) by {
                    if seen.contains(t) {
                        let k = choose|k: int| 0 <= k < seen.len() && seen[k] == t;
                        assert(ts[k] == ts[i as int]);
                    }
                }
                assert(self@.dom().contains(t));
                assert(ts.take(i + 1) =~= seen.push(t));
                assert forall|u: Seq<char>| ts.take(i + 1).contains(u) <==> seen.contains(u) || u
                    == t by {
                    if seen.contains(u) {
                        let k = choose|k: int| 0 <= k < seen.len() && seen[k] == u;
                        assert(ts.take(i + 1)[k] == u);
                    }
                    assert(ts.take(i + 1)[i as int] == t);
                    if ts.take(i + 1).contains(u) && u != t {
                        let upto = ts.take(i + 1);
                        let k = choose|k: int| 0 <= k < upto.len() && #[trigger] upto[k] == u;
                        assert(seen[k] == u);
                    }
                }
            }
            let gone = match self.table.get(token) {
                Some(entry) => entry.expired(now),
                None => false,
            };
            if gone {
                match self.table.remove(token) {
                    Some(entry) => {
                        proof {
                            assert(self@ =~= mid.remove(t));
                            assert(entry@ == book[t]);
                        }
                        out.push(
                            Eviction {
                                token: token.to_owned(),
                                client_id: entry.client_id,
                                locks: entry.locks,
                            },
                        );
                        proof {
                            assert(evicts(book, now, out@[sent.len() as int]));
                            assert forall|k: int|
                                #![trigger ts[k]]
                                0 <= k < i + 1 && expired(book[ts[k]], now) implies evicted(
                                out@,
                                ts[k],
                            ) by {
                                if k < i {
                                    let j = choose|j: int|
                                        0 <= j < sent.len() && (#[trigger] sent[j]).token@ == ts[k];
                                    assert(out@[j].token@ == ts[k]);
                                } else {
                                    assert(out@[sent.len() as int].token@ == ts[k]);
                                }
                            }
                        }
                    },
                    None => {},
                }
            }
            i += 1;
        }
        proof {
            assert(ts.take(ts.len() as int) =~= ts);
            assert forall|t: Seq<char>| book.dom().contains(t) && expired(
                book[t],
                now,
            ) implies #[trigger] evicted(out@, t) by {
                assert(ts.contains(t));
                let k = choose|k: int| 0 <= k < ts.len() && ts[k] == t;
                assert(evicted(out@, ts[k]));
            }
        }
        out
    }

    /// Number of live sessions.
    pub fn len(&self) -> (r: usize)
        ensures
            self@.dom().finite(),
            r == self@.dom().len(),
    {
        proof {
            assert(self@.dom() =~= self.table@.dom());
        }
        self.table.len()
    }
}

/// Some eviction is of the session under `t`.
pub open spec fn evicted(out: Seq<Eviction>, t: Seq<char>) -> bool {
    exists|j: int| 0 <= j < out.len() && (#[trigger] out[j]).token@ == t
}

/// `e` is the eviction of a session of `book` that has expired at `now`.
pub open spec fn evicts(book: Map<Seq<char>, SessionV>, now: u128, e: Eviction) -> bool {
    book.dom().contains(e.token@) && expired(book[e.token@], now) && e.of(
        e.token@,
        book[e.token@],
    )
}

/// `out` evicts exactly the sessions of `book` that have expired at `now`, each
/// one once and with all that was bound to it.
pub open spec fn swept(book: Map<Seq<char>, SessionV>, now: u128, out: Seq<Eviction>) -> bool {
    &&& forall|j: int| 0 <= j < out.len() ==> evicts(book, now, #[trigger] out[j])
    &&& forall|j: int, k: int|
        0 <= j < k < out.len() ==> (#[trigger] out[j]).token@ != (#[trigger] out[k]).token@
    &&& forall|t: Seq<char>|
        book.dom().contains(t) && expired(book[t], now) ==> #[trigger] evicted(out, t)
}

/// How many of the releases freed a lock.
pub open spec fn freed(results: Seq<Result<bool, Error>>) -> nat
    decreases results.len(),
{
    if results.len() == 0 {
        0
    } else {
        freed(results.drop_last()) + if results.last() == Ok::<bool, Error>(true) {
            1nat
        } else {
            0nat
        }
    }
}

/// Counts the releases that freed a lock.
pub fn count_released(results: &Vec<Result<bool, Error>>) -> (r: u32)
    requires
        results@.len() <= u32::MAX,
    ensures
        r == freed(results@),
{
    let mut n: u32 = 0;
    let mut i: usize = 0;
    while i < results.len()
        invariant
            0 <= i <= results@.len() <= u32::MAX,
            n <= i,
            n == freed(results@.take(i as int)),
        decreases results@.len() - i,
    {
        proof {
            assert(results@.take(i + 1).drop_last() =~= results@.take(i as int));
            assert(results@.take(i + 1).last() == results@[i as int]);
        }
        match &results[i] {
            Ok(b) => if *b {
                n += 1;
            },
            Err(_) => {},
        }
        i += 1;
    }
    proof {
        assert(results@.take(results@.len() as int) =~= results@);
    }
    n
}

/// A crashed client's locks die within its lease and one sweep: if a session
/// was not yet expired at one sweep, and the next comes within the sweep
/// interval and after the lease has run out, that next one finds the session
/// expired, no later than the lease and one interval after its last sign of
/// life.
pub proof fn silent_sessions_are_swept_in_time(s: SessionV, sweep: u128, next: u128)
    requires
        !expired(s, sweep),
        s.last_seen <= sweep <= next <= sweep + sweep_interval(),
        next > s.last_seen + s.ttl,
    ensures
        expired(s, next),
        next <= s.last_seen + s.ttl + sweep_interval(),
{
}

/// A session that shows a sign of life at `seen` and is swept before its lease
/// has run out since then survives the sweep.
pub proof fn live_sessions_survive_sweeps(s: SessionV, seen: u128, sweep: u128)
    requires
        sweep <= seen + s.ttl,
    ensures
        !expired(SessionV { last_seen: seen, ..s }, sweep),
{
}

/// What happens to live sessions.
pub enum SessionOp {
    Heartbeat { token: Seq<char>, now: u128 },
    Bind { token: Seq<char>, key: Seq<char>, lock_token: Seq<char>, now: u128 },
}

/// The sessions after `ops`.
pub open spec fn after_session_ops(
    book: Map<Seq<char>, SessionV>,
    ops: Seq<SessionOp>,
) -> Map<Seq<char>, SessionV>
    decreases ops.len(),
{
    if ops.len() == 0 {
        book
    } else {
        let before = after_session_ops(book, ops.drop_last());
        match ops.last() {
            SessionOp::Heartbeat { token, now } => after_heartbeat(before, token, now),
            SessionOp::Bind { token, key, lock_token, now } => after_bind(
                before,
                token,
                key,
                lock_token,
                now,
            ),
        }
    }
}

/// The locks that `ops` bind to the session under `token`, in order.
pub open spec fn bound_to(token: Seq<char>, ops: Seq<SessionOp>) -> Seq<(Seq<char>, Seq<char>)>
    decreases ops.len(),
{
    if ops.len() == 0 {
        seq![]
    } else {
        let before = bound_to(token, ops.drop_last());
        match ops.last() {
            SessionOp::Bind { token: t, key, lock_token, .. } => if t == token {
                before.push((key, lock_token))
            } else {
                before
            },
            SessionOp::Heartbeat { .. } => before,
        }
    }
}

/// No bound lock is forgotten: until it is closed or swept, a session lives on
/// with every lock that was ever bound to it, in order and once each, whatever
/// happens to it or to others; so closing or sweeping it hands out all of them.
pub proof fn bound_locks_are_never_forgotten(
    book: Map<Seq<char>, SessionV>,
    token: Seq<char>,
    ops: Seq<SessionOp>,
)
    requires
        book.dom().contains(token),
    ensures
        after_session_ops(book, ops).dom().contains(token),
        after_session_ops(book, ops)[token].locks == book[token].locks + bound_to(token, ops),
        after_session_ops(book, ops)[token].ttl == book[token].ttl,
        after_session_ops(book, ops)[token].client_id == book[token].client_id,
    decreases ops.len(),
{
    if ops.len() == 0 {
        assert(book[token].locks + bound_to(token, ops) =~= book[token].locks);
    } else {
        bound_locks_are_never_forgotten(book, token, ops.drop_last());
        let before = after_session_ops(book, ops.drop_last());
        assert(after_session_ops(book, ops)[token].locks =~= book[token].locks + bound_to(
            token,
            ops,
        ));
    }
}

/// The documented heartbeat cadence of a third of the lease is never refused.
pub proof fn documented_heartbeats_are_accepted(
    book: Map<Seq<char>, SessionV>,
    token: Seq<char>,
    now: u128,
)
    requires
        book.dom().contains(token),
        silent_for(book[token], now) >= book[token].ttl / 3,
    ensures
        heartbeat_answer(book, token, now) == HbResult::Accepted,
{
}

} // verus!
