//! The web demo: what each request leads to, and how it is answered.
//!
//! No locking is done here: every change goes through the lock manager. The
//! handlers come in two parts, one that decides what is sent to the store and
//! one that turns the outcome into the answer.

use vstd::prelude::*;

use crate::command::{cmd, Command, Invocation};
use crate::error::{error_text, Error, ErrorV};
use crate::fair::FairLockHandle;
use crate::fencing::FencingToken;
use crate::lattice::{tier_text, Tier};
use crate::multi::MultiLockHandle;
use crate::options::{min_ttl, LockOptions, SafetyPolicy, MIN_TTL_MS};
use crate::payloads::{AcquireRequest, DescribeResponse, ExtendOutcome, ExtendRequest,
    ForceUnlockRequest, ForceUnlockResponse, KeyEntry, ListLocksResponse, ListQuery, LockOutcome,
    ReleaseRequest, UnlockOutcome};
use crate::reentrant::ReentrantLockHandle;
use crate::rwlock::{RwReadHandle, RwWriteHandle};
use crate::sessions::{SessionBook, SessionV};
use crate::scan::Scan;
use crate::single::{extend_call, fence_key, sendable, DescribeCalls, Farewell,
    PendingLock, RedisLockHandle, RedisLockManager};
use crate::span::{millis, Span};
use crate::table::Table;
use crate::text::{ascii_lower, decimal, decimal_of, is_empty, lower_all, same};

verus! {

/// The longest lease of the demo in milliseconds.
pub const DEMO_MAX_TTL_MS: u64 = 60_000;

/// The lease taken where a request gives none, in milliseconds.
pub const DEMO_DEFAULT_TTL_MS: u64 = 4_000;

/// A request that cannot be answered: an HTTP status and the words.
#[derive(Debug)]
pub struct ApiError {
    pub status: u16,
    pub message: String,
}

/// A request that cannot be answered, the words as characters.
pub struct ApiErrorV {
    pub status: u16,
    pub message: Seq<char>,
}

impl View for ApiError {
    type V = ApiErrorV;

    open spec fn view(&self) -> ApiErrorV {
        ApiErrorV { status: self.status, message: self.message@ }
    }
}

/// How a failed lock operation is answered: what the caller got wrong is 400,
/// a store that fails is 502, anything else is 500.
pub open spec fn api_error(e: ErrorV) -> ApiErrorV {
    ApiErrorV {
        status: match e {
            ErrorV::InvalidConfig(_) => 400,
            ErrorV::Backend(_) => 502,
            _ => 500,
        },
        message: error_text(e),
    }
}

/// A refusal of the request itself.
pub open spec fn bad_request(message: Seq<char>) -> ApiErrorV {
    ApiErrorV { status: 400, message }
}

impl ApiError {
    /// How a failed lock operation is answered.
    pub fn from_error(e: &Error) -> (r: Self)
        ensures
            r@ == api_error(e@),
    {
        let status: u16 = match e {
            Error::InvalidConfig(_) => 400,
            Error::Backend(_) => 502,
            _ => 500,
        };
        ApiError { status, message: e.message() }
    }

    /// A refusal of the request itself.
    pub fn bad_request(message: String) -> (r: Self)
        ensures
            r@ == bad_request(message@),
    {
        ApiError { status: 400, message }
    }
}

/// What is fed into the store pressure index: whether the store worked, and
/// whether it denied.
#[derive(Clone, Copy, Debug, PartialEq, Eq, Structural)]
pub struct Observation {
    pub ok: bool,
    pub denied: bool,
}

/// The lease of a request in milliseconds: 4 s where none is asked, at most
/// 60 s, and never below the floor.
pub open spec fn clamped(ttl_ms: Option<u64>) -> nat {
    let asked: nat = match ttl_ms {
        Some(ms) => ms as nat,
        None => 4_000,
    };
    let capped: nat = if asked < 60_000 {
        asked
    } else {
        60_000
    };
    if capped < 10 {
        10
    } else {
        capped
    }
}

/// Milliseconds as nanoseconds.
pub open spec fn ms(n: nat) -> nat {
    n * 1_000_000
}

/// The lease of a request.
pub fn clamp_ttl(ttl_ms: Option<u64>) -> (r: Span)
    ensures
        r@ == ms(clamped(ttl_ms)),
        millis(r@) == clamped(ttl_ms),
        r@ >= min_ttl(),
        sendable(r@),
{
    let asked: u64 = match ttl_ms {
        Some(n) => n,
        None => DEMO_DEFAULT_TTL_MS,
    };
    let capped: u64 = if asked < DEMO_MAX_TTL_MS {
        asked
    } else {
        DEMO_MAX_TTL_MS
    };
    Span::from_millis(
        if capped < MIN_TTL_MS {
            MIN_TTL_MS
        } else {
            capped
        },
    )
}

/// The policy that a lower-case word names.
pub open spec fn policy_named(word: Seq<char>) -> Option<SafetyPolicy> {
    if word == "cowardly"@ {
        Some(SafetyPolicy::Cowardly)
    } else if word == "balanced"@ {
        Some(SafetyPolicy::Balanced)
    } else if word == "aggressive"@ {
        Some(SafetyPolicy::Aggressive)
    } else {
        None
    }
}

/// The refusal of a word that names no policy.
pub open spec fn unknown_policy(word: Seq<char>) -> ApiErrorV {
    bad_request(
        "unknown safety policy `"@ + word + "` (cowardly|balanced|aggressive)"@,
    )
}

/// The policy that a word names, in any case.
pub fn parse_safety_policy(s: &str) -> (r: Result<SafetyPolicy, ApiError>)
    ensures
        match policy_named(lower_all(s@)) {
            Some(p) => r == Ok::<SafetyPolicy, ApiError>(p),
            None => r matches Err(e) && e@ == unknown_policy(lower_all(s@)),
        },
{
    let word = ascii_lower(s);
    if same(word.as_str(), "cowardly") {
        Ok(SafetyPolicy::Cowardly)
    } else if same(word.as_str(), "balanced") {
        Ok(SafetyPolicy::Balanced)
    } else if same(word.as_str(), "aggressive") {
        Ok(SafetyPolicy::Aggressive)
    } else {
        Err(
            ApiError::bad_request(
                "unknown safety policy `".to_owned().concat(word.as_str()).concat(
                    "` (cowardly|balanced|aggressive)",
                ),
            ),
        )
    }
}

/// The name of a tier.
pub fn tier_name(tier: Tier) -> (r: &'static str)
    ensures
        r@ == tier_text(tier),
{
    tier.as_str()
}

/// The name under which a handle is kept: the key and its fence.
pub open spec fn fenced_name(key: Seq<char>, fence: u64) -> Seq<char> {
    key + "|"@ + decimal(fence as nat)
}

/// The name under which a handle is kept: the key and its fence.
pub fn rw_map_key(key: &str, fence: u64) -> (r: String)
    ensures
        r@ == fenced_name(key@, fence),
{
    key.to_owned().concat("|").concat(decimal_of(fence).as_str())
}

/// The name under which the holds of one owner are kept.
pub open spec fn owned_name(key: Seq<char>, owner: Seq<char>) -> Seq<char> {
    key + "|"@ + owner
}

/// A permit of a semaphore, as the demo finds it again.
#[derive(Debug)]
pub struct SemaphorePermit {
    pub key: String,
    pub fence: FencingToken,
}

/// The handles that the demo keeps, as a client of the library would.
#[derive(Debug)]
pub struct LiveHandles {
    /// The holds of reentrant locks by key and owner, the latest last.
    pub reentrant: Table<Vec<ReentrantLockHandle>>,
    /// Reader slots by key and fence.
    pub rw_read: Table<RwReadHandle>,
    /// Writer slots by key and fence.
    pub rw_write: Table<RwWriteHandle>,
    /// Semaphore permits by key and fence.
    pub permits: Table<SemaphorePermit>,
    /// Fair locks by key and fence.
    pub fair: Table<FairLockHandle>,
    /// Multi-locks by their identity.
    pub multi: Table<MultiLockHandle>,
}

/// The holds kept under `name`.
pub open spec fn holds(
    t: Map<Seq<char>, Vec<ReentrantLockHandle>>,
    name: Seq<char>,
) -> Seq<ReentrantLockHandle> {
    if t.dom().contains(name) {
        t[name]@
    } else {
        seq![]
    }
}

/// The shared state of the demo.
#[derive(Debug)]
pub struct DemoState {
    pub manager: RedisLockManager,
    pub sessions: SessionBook,
    pub live: LiveHandles,
}

/// How an acquisition ends.
#[derive(Debug)]
pub struct AcquireEnd {
    pub answer: Result<LockOutcome, ApiError>,
    pub observed: Option<Observation>,
    /// The grant is undone by these calls.
    pub undo: Option<Farewell>,
}

/// What is wrong with a request for a lock, if anything: an empty key, then an
/// unknown policy.
pub open spec fn acquire_fault(req: AcquireRequest) -> Option<ApiErrorV> {
    if req.key@.len() == 0 {
        Some(bad_request("key must not be empty"@))
    } else {
        match req.safety_policy {
            Some(p) => match policy_named(lower_all(p@)) {
                Some(_) => None,
                None => Some(unknown_policy(lower_all(p@))),
            },
            None => None,
        }
    }
}

/// The session that a request names but the book does not know.
pub open spec fn unknown_session(
    req: AcquireRequest,
    book: Map<Seq<char>, SessionV>,
) -> bool {
    match req.session_token {
        Some(s) => !book.dom().contains(s@),
        None => false,
    }
}

/// The sessions after a grant of `key` under `token` was bound to the session
/// that the request names, if it names one.
pub open spec fn after_binding(
    req: AcquireRequest,
    book: Map<Seq<char>, SessionV>,
    token: Seq<char>,
    now: u128,
) -> Map<Seq<char>, SessionV> {
    match req.session_token {
        Some(s) => book.insert(
            s@,
            SessionV {
                last_seen: now,
                locks: book[s@].locks.push((req.key@, token)),
                ..book[s@]
            },
        ),
        None => book,
    }
}

impl DemoState {
    /// The demo over `manager`, with nothing held and no session.
    pub fn new(manager: RedisLockManager) -> (r: Self)
        ensures
            r.manager == manager,
            r.sessions@ == Map::<Seq<char>, SessionV>::empty(),
            r.live.reentrant@ == Map::<Seq<char>, Vec<ReentrantLockHandle>>::empty(),
            r.live.rw_read@ == Map::<Seq<char>, RwReadHandle>::empty(),
            r.live.rw_write@ == Map::<Seq<char>, RwWriteHandle>::empty(),
            r.live.permits@ == Map::<Seq<char>, SemaphorePermit>::empty(),
            r.live.fair@ == Map::<Seq<char>, FairLockHandle>::empty(),
            r.live.multi@ == Map::<Seq<char>, MultiLockHandle>::empty(),
    {
        DemoState {
            manager,
            sessions: SessionBook::new(),
            live: LiveHandles {
                reentrant: Table::new(),
                rw_read: Table::new(),
                rw_write: Table::new(),
                permits: Table::new(),
                fair: Table::new(),
                multi: Table::new(),
            },
        }
    }

    /// The options that a request for a lock asks for.
    pub fn acquire_options(req: &AcquireRequest) -> (r: Result<LockOptions, ApiError>)
        ensures
            r is Ok <==> acquire_fault(*req) is None,
            r matches Err(e) ==> acquire_fault(*req) == Some(e@),
            r matches Ok(o) ==> o.ttl matches Some(ttl) && ttl@ == ms(clamped(req.ttl_ms)) && ttl@
                >= min_ttl() && sendable(ttl@) && o.watchdog == Some(
                match req.watchdog {
                    Some(w) => w,
                    None => false,
                },
            ) && o.safety_policy == match req.safety_policy {
                Some(p) => policy_named(lower_all(p@))->0,
                None => SafetyPolicy::Balanced,
            },
    {
        if is_empty(req.key.as_str()) {
            return Err(ApiError::bad_request("key must not be empty".to_owned()));
        }
        let ttl = clamp_ttl(req.ttl_ms);
        let policy = match &req.safety_policy {
            Some(p) => match parse_safety_policy(p.as_str()) {
                Ok(policy) => policy,
                Err(e) => {
                    return Err(e);
                },
            },
            None => SafetyPolicy::Balanced,
        };
        let watchdog = match req.watchdog {
            Some(w) => w,
            None => false,
        };
        Ok(LockOptions::new().with_ttl(ttl).with_watchdog(watchdog).with_safety_policy(policy))
    }

    /// `POST /api/lock`: begins the acquisition.
    pub fn acquire(&self, req: &AcquireRequest) -> (r: Result<PendingLock, ApiError>)
        ensures
            r is Ok <==> acquire_fault(*req) is None,
            r matches Err(e) ==> acquire_fault(*req) == Some(e@),
            r matches Ok(p) ==> p.key@ == req.key@ && p.ttl@ == ms(clamped(req.ttl_ms))
                && sendable(p.ttl@) && p.owner.minted() && p.watchdog == (match req.watchdog {
                Some(w) => w,
                None => false,
            }),
    {
        let options = match DemoState::acquire_options(req) {
            Ok(o) => o,
            Err(e) => {
                return Err(e);
            },
        };
        match self.manager.try_lock_with(req.key.as_str(), &options) {
            Ok(p) => Ok(p),
            Err(e) => Err(ApiError::from_error(&e)),
        }
    }

    /// `POST /api/lock`: the answer. A grant that names an unknown session is
    /// undone; any other is handed over to the caller with its token.
    pub fn acquired(
        &mut self,
        req: &AcquireRequest,
        attempt: Result<RedisLockHandle, Error>,
        now: u128,
    ) -> (r: AcquireEnd)
        requires
            attempt matches Ok(h) ==> !h.released,
        ensures
            final(self).manager == old(self).manager,
            final(self).live == old(self).live,
            match attempt {
                Ok(h) => if unknown_session(*req, old(self).sessions@) {
                    &&& r.answer matches Err(e) && e@ == (ApiErrorV {
                        status: 404,
                        message: "unknown or expired session"@,
                    })
                    &&& r.observed is None
                    &&& r.undo matches Some(f) && h.says_farewell(f)
                    &&& final(self).sessions@ == old(self).sessions@
                } else {
                    &&& r.answer matches Ok(LockOutcome::Granted { key, token, fence, ttl_ms })
                        && key@ == req.key@ && token@ == h.owner.token_text() && fence == h.fence@
                        && ttl_ms == millis(h.ttl@)
                    &&& r.observed == Some(Observation { ok: true, denied: false })
                    &&& r.undo is None
                    &&& final(self).sessions@ == after_binding(
                        *req,
                        old(self).sessions@,
                        h.owner.token_text(),
                        now,
                    )
                },
                Err(e) => {
                    &&& final(self).sessions@ == old(self).sessions@
                    &&& r.undo is None
                    &&& if e@ is Held {
                        &&& r.answer matches Ok(LockOutcome::Held { key }) && key@ == req.key@
                        &&& r.observed == Some(Observation { ok: true, denied: true })
                    } else {
                        &&& r.answer matches Err(a) && a@ == api_error(e@)
                        &&& r.observed == Some(Observation { ok: false, denied: false })
                    }
                },
            },
    {
        match attempt {
            Ok(h) => {
                let mut h = h;
                let token = h.owner.token();
                let bound = match &req.session_token {
                    Some(s) => self.sessions.bind(
                        s.as_str(),
                        req.key.as_str(),
                        token.as_str(),
                        now,
                    ),
                    None => true,
                };
                if !bound {
                    return AcquireEnd {
                        answer: Err(
                            ApiError {
                                status: 404,
                                message: "unknown or expired session".to_owned(),
                            },
                        ),
                        observed: None,
                        undo: h.release(),
                    };
                }
                let fence: u64 = h.fence.value();
                let ttl_ms: u64 = h.ttl.as_millis();
                h.disarm();
                AcquireEnd {
                    answer: Ok(
                        LockOutcome::Granted { key: req.key.clone(), token, fence, ttl_ms },
                    ),
                    observed: Some(Observation { ok: true, denied: false }),
                    undo: None,
                }
            },
            Err(e) => if e.is_held() {
                AcquireEnd {
                    answer: Ok(LockOutcome::Held { key: req.key.clone() }),
                    observed: Some(Observation { ok: true, denied: true }),
                    undo: None,
                }
            } else {
                AcquireEnd {
                    answer: Err(ApiError::from_error(&e)),
                    observed: Some(Observation { ok: false, denied: false }),
                    undo: None,
                }
            },
        }
    }

    /// `POST /api/unlock`: begins the release.
    pub fn release(&self, req: &ReleaseRequest) -> (r: Farewell)
        ensures
            r.bids(req.key@, req.token@),
    {
        self.manager.unlock_with_token(req.key.as_str(), req.token.as_str())
    }

    /// `POST /api/unlock`: the answer, and what is observed.
    pub fn released(&self, reply: Result<i64, String>) -> (r: (
        Result<UnlockOutcome, ApiError>,
        Option<Observation>,
    ))
        ensures
            match reply {
                Ok(n) => {
                    &&& r.0 == Ok::<UnlockOutcome, ApiError>(
                        if n == 1 {
                            UnlockOutcome::Released
                        } else {
                            UnlockOutcome::Lost
                        },
                    )
                    &&& r.1 == Some(Observation { ok: true, denied: false })
                },
                Err(m) => {
                    &&& r.0 matches Err(e) && e@ == api_error(
                        ErrorV::Backend("unlock failed: "@ + m@),
                    )
                    &&& r.1 is None
                },
            },
    {
        match self.manager.unlocked_with_token(reply) {
            Ok(released) => (
                Ok(
                    if released {
                        UnlockOutcome::Released
                    } else {
                        UnlockOutcome::Lost
                    },
                ),
                Some(Observation { ok: true, denied: false }),
            ),
            Err(e) => (Err(ApiError::from_error(&e)), None),
        }
    }

    /// `GET /api/describe/{key}`: what to ask.
    pub fn describe(&self, key: &str) -> (r: DescribeCalls)
        ensures
            r.held@ == cmd("EXISTS"@).text(key@),
            r.version@ == cmd("GET"@).text(fence_key(key@)),
            r.lease@ == cmd("PTTL"@).text(key@),
    {
        self.manager.describe_key(key)
    }

    /// `GET /api/describe/{key}`: the answer.
    pub fn described(&self, told: Result<(bool, u64, u64), Error>) -> (r: Result<
        DescribeResponse,
        ApiError,
    >)
        ensures
            match told {
                Ok((held, version, ttl_ms)) => r == Ok::<DescribeResponse, ApiError>(
                    DescribeResponse { held, version, ttl_ms },
                ),
                Err(e) => r matches Err(a) && a@ == api_error(e@),
            },
    {
        match told {
            Ok((held, version, ttl_ms)) => Ok(DescribeResponse { held, version, ttl_ms }),
            Err(e) => Err(ApiError::from_error(&e)),
        }
    }

    /// `GET /api/locks`: begins the enumeration; all keys where no prefix is
    /// given.
    pub fn list_locks(&self, q: &ListQuery) -> (r: Scan)
        ensures
            r.wf(),
            r.fresh,
            r.cursor == 0,
            r.batch@.len() == 0,
            r.found@.len() == 0,
            r.prefix@ == (match q.prefix {
                Some(p) => p@,
                None => seq![],
            }),
    {
        match &q.prefix {
            Some(p) => self.manager.scan_held(p.as_str()),
            None => {
                let empty = String::new();
                proof {
                    assert(empty@ =~= seq![]);
                }
                self.manager.scan_held(empty.as_str())
            },
        }
    }

    /// `GET /api/locks`: the answer.
    pub fn listed(&self, q: &ListQuery, found: Result<Vec<(String, u64)>, Error>) -> (r: Result<
        ListLocksResponse,
        ApiError,
    >)
        ensures
            match found {
                Ok(entries) => r matches Ok(l) && l.prefix@ == (match q.prefix {
                    Some(p) => p@,
                    None => seq![],
                }) && l.locks@.len() == entries@.len() && forall|i: int|
                    0 <= i < entries@.len() ==> (#[trigger] l.locks@[i]).key@ == entries@[i].0@
                        && l.locks@[i].ttl_ms == entries@[i].1,
                Err(e) => r matches Err(a) && a@ == api_error(e@),
            },
    {
        let entries = match found {
            Ok(entries) => entries,
            Err(e) => {
                return Err(ApiError::from_error(&e));
            },
        };
        let prefix = match &q.prefix {
            Some(p) => p.clone(),
            None => String::new(),
        };
        proof {
            assert(q.prefix is None ==> prefix@ =~= seq![]);
        }
        let mut locks: Vec<KeyEntry> = Vec::new();
        let mut i: usize = 0;
        while i < entries.len()
            invariant
                0 <= i <= entries@.len(),
                locks@.len() == i,
                forall|j: int|
                    0 <= j < i ==> (#[trigger] locks@[j]).key@ == entries@[j].0@ && locks@[j].ttl_ms
                        == entries@[j].1,
            decreases entries@.len() - i,
        {
            locks.push(KeyEntry { key: entries[i].0.clone(), ttl_ms: entries[i].1 });
            i += 1;
        }
        Ok(ListLocksResponse { prefix, locks })
    }

    /// `POST /api/extend`: begins the renewal, to the clamped lease.
    pub fn extend(&self, req: &ExtendRequest) -> (r: Result<Invocation, ApiError>)
        ensures
            r matches Ok(i) && i@ == extend_call(
                req.key@,
                req.token@,
                ms(clamped(Some(req.ttl_ms))),
            ),
    {
        let ttl = clamp_ttl(Some(req.ttl_ms));
        match self.manager.extend_with_token(req.key.as_str(), req.token.as_str(), &ttl) {
            Ok(i) => Ok(i),
            Err(e) => Err(ApiError::from_error(&e)),
        }
    }

    /// `POST /api/extend`: the answer.
    pub fn extended(&self, reply: Result<i64, String>) -> (r: Result<ExtendOutcome, ApiError>)
        ensures
            match reply {
                Ok(n) => r == Ok::<ExtendOutcome, ApiError>(
                    if n == 1 {
                        ExtendOutcome::Extended
                    } else {
                        ExtendOutcome::Lost
                    },
                ),
                Err(m) => r matches Err(e) && e@ == api_error(
                    ErrorV::Backend("extend failed: "@ + m@),
                ),
            },
    {
        match self.manager.extended_with_token(reply) {
            Ok(ok) => Ok(
                if ok {
                    ExtendOutcome::Extended
                } else {
                    ExtendOutcome::Lost
                },
            ),
            Err(e) => Err(ApiError::from_error(&e)),
        }
    }

    /// `POST /api/force-unlock`: what to send.
    pub fn force_unlock(&self, req: &ForceUnlockRequest) -> (r: Command)
        ensures
            r@ == cmd("DEL"@).text(req.key@),
    {
        self.manager.force_unlock(req.key.as_str())
    }

    /// `POST /api/force-unlock`: the answer.
    pub fn force_unlocked(&self, reply: Result<i64, String>) -> (r: Result<
        ForceUnlockResponse,
        ApiError,
    >)
        ensures
            match reply {
                Ok(n) => r == Ok::<ForceUnlockResponse, ApiError>(
                    ForceUnlockResponse { released: n > 0 },
                ),
                Err(m) => r matches Err(e) && e@ == api_error(
                    ErrorV::Backend("force unlock failed: "@ + m@),
                ),
            },
    {
        match self.manager.force_unlocked(reply) {
            Ok(released) => Ok(ForceUnlockResponse { released }),
            Err(e) => Err(ApiError::from_error(&e)),
        }
    }
}

} // verus!
