//! The lock service: how each remote request is admitted, what it sends to the
//! store, and how it is answered.
//!
//! The service mints tokens and checks ownership on every change; holding and
//! renewing a lock is the client's part. Watch events name no holder.

use vstd::prelude::*;

use crate::auth::{denial, header, identify, lock_verdict, resolved, slot_freed, watch_verdict,
    watched, Acl, AclV, Permission, WatcherGuard};
use crate::command::{cmd, Command, Invocation};
use crate::error::{error_text, Error, ErrorV};
use crate::options::{below_floor, min_ttl, LockOptions, SafetyPolicy};
use crate::owner::OwnerId;
use crate::registry::{after_acquire, at_ceiling, HeldRegistry};
use crate::sessions::{bid_farewell, bound_under, count_released, farewells, freed,
    heartbeat_answer, HbResult, SessionBook, SessionV};
use crate::scan::Scan;
use crate::single::{extend_call, fence_key, sendable, DescribeCalls, Farewell,
    PendingLock, RedisLockHandle, RedisLockManager};
use crate::span::{millis, span_text, Span};
use crate::status::{denied_line, refusal, AuditLine, AuditLineV, Code, Status, StatusV};
use crate::text::is_empty;
use crate::watch_hub::{first_event, place_left, place_taken, Subscribed, WatchHub, Watched};

verus! {

/// Tunable knobs of the service.
#[derive(Clone, Copy, Debug)]
pub struct ServiceConfig {
    /// Lease where a request gives none.
    pub default_ttl: Span,
    /// Longest lease that is granted or extended to.
    pub max_ttl: Span,
}

impl Default for ServiceConfig {
    fn default() -> (r: Self)
        ensures
            r.default_ttl@ == 30_000_000_000,
            r.max_ttl@ == 600_000_000_000,
    {
        ServiceConfig { default_ttl: Span::from_secs(30), max_ttl: Span::from_secs(600) }
    }
}

/// The options of a request.
#[derive(Clone, Copy, Debug)]
pub struct LockOptionsPb {
    /// Lease in milliseconds; 0 for the server's default.
    pub ttl_ms: u64,
    pub watchdog: Option<bool>,
}

/// A request for a lock.
#[derive(Debug)]
pub struct TryLockRequest {
    pub key: String,
    pub options: Option<LockOptionsPb>,
    /// Session to bind the grant to; empty for none.
    pub session: String,
}

/// A request for a lock that may wait.
#[derive(Debug)]
pub struct TryLockForRequest {
    pub key: String,
    pub options: Option<LockOptionsPb>,
    pub session: String,
    pub wait_ms: u64,
}

/// The outcome of a request for a lock.
#[derive(Debug)]
pub enum GrantOutcome {
    Granted { token: String, fencing_token: u64, ttl_ms: u64 },
    Held { key: String },
    TimedOut { key: String },
}

/// A request to unlock.
#[derive(Debug)]
pub struct UnlockRequest {
    pub key: String,
    pub token: String,
}

/// A request to renew a lease.
#[derive(Debug)]
pub struct RenewRequest {
    pub key: String,
    pub token: String,
    pub ttl_ms: u64,
}

/// The outcome of an ownership-checked request.
#[derive(Clone, Copy, Debug, PartialEq, Eq, Structural)]
pub enum OwnedOutcome {
    Done,
    /// The token no longer owns the key.
    Lost { fencing_token: u64 },
}

/// One held key of an enumeration.
#[derive(Debug)]
pub struct KeyState {
    pub key: String,
    pub held: bool,
    pub ttl_ms: u64,
}

/// A request for a lock that was let in.
#[derive(Debug)]
pub struct Admission {
    pub key: String,
    pub session: String,
    /// The caller's name and ceiling of keys.
    pub principal: String,
    pub max_keys: u32,
    pub options: LockOptions,
}

/// How a request for a lock ends.
#[derive(Debug)]
pub struct GrantEnd {
    pub answer: Result<GrantOutcome, Status>,
    /// The grant is undone by these calls.
    pub undo: Option<Farewell>,
}

/// The lease that a request asks for.
pub open spec fn asked_ttl(pb: Option<LockOptionsPb>, config: ServiceConfig) -> nat {
    match pb {
        Some(o) => if o.ttl_ms == 0 {
            config.default_ttl@
        } else {
            o.ttl_ms as nat * 1_000_000
        },
        None => config.default_ttl@,
    }
}

/// The refusal of a lease above the maximum.
pub open spec fn too_long(ttl: nat, max: nat) -> StatusV {
    refusal(
        Code::InvalidArgument,
        "ttl "@ + span_text(ttl) + " exceeds server maximum "@ + span_text(max),
    )
}

/// The answer to a failure of a lock operation.
pub open spec fn internal(e: ErrorV) -> StatusV {
    refusal(Code::Internal, error_text(e))
}

fn internal_status(e: &Error) -> (r: Status)
    ensures
        r@ == internal(e@),
{
    Status::new(Code::Internal, e.message().as_str())
}

fn too_long_status(ttl: &Span, max: &Span) -> (r: Status)
    ensures
        r@ == too_long(ttl@, max@),
{
    Status::new(
        Code::InvalidArgument,
        "ttl ".to_owned().concat(ttl.debug_text().as_str()).concat(
            " exceeds server maximum ",
        ).concat(max.debug_text().as_str()).as_str(),
    )
}

/// The automatic renewal that a request asks for, if it says.
pub open spec fn asked_watchdog(pb: Option<LockOptionsPb>) -> Option<bool> {
    match pb {
        Some(p) => p.watchdog,
        None => None,
    }
}

/// `o` are the options that a request asks for.
pub open spec fn asks(pb: Option<LockOptionsPb>, config: ServiceConfig, o: LockOptions) -> bool {
    &&& o.ttl matches Some(ttl) && ttl@ == asked_ttl(pb, config)
    &&& o.watchdog == asked_watchdog(pb)
    &&& o.safety_policy == SafetyPolicy::Balanced
}

/// A lease that is asked for and within the maximum fits what is sent to the
/// store.
pub open spec fn lease_fits(pb: Option<LockOptionsPb>, config: ServiceConfig) -> bool {
    asked_ttl(pb, config) <= config.max_ttl@ ==> sendable(asked_ttl(pb, config))
}

/// The options of a request under the server's limits.
pub fn options_from_pb(pb: Option<LockOptionsPb>, config: &ServiceConfig) -> (r: Result<
    LockOptions,
    Status,
>)
    ensures
        if asked_ttl(pb, *config) > config.max_ttl@ {
            r matches Err(s) && s@ == too_long(asked_ttl(pb, *config), config.max_ttl@)
        } else {
            r matches Ok(o) && asks(pb, *config, o)
        },
{
    let ttl = match pb {
        Some(o) => if o.ttl_ms == 0 {
            config.default_ttl
        } else {
            Span::from_millis(o.ttl_ms)
        },
        None => config.default_ttl,
    };
    if config.max_ttl.less_than(&ttl) {
        return Err(too_long_status(&ttl, &config.max_ttl));
    }
    let options = LockOptions::new().with_ttl(ttl);
    let watchdog = match pb {
        Some(o) => o.watchdog,
        None => None,
    };
    Ok(
        match watchdog {
            Some(w) => options.with_watchdog(w),
            None => options,
        },
    )
}

/// The lock service.
#[derive(Debug)]
pub struct PalisadeService {
    pub manager: RedisLockManager,
    pub config: ServiceConfig,
    pub ready: bool,
    pub sessions: SessionBook,
    pub acl: Acl,
    pub hub: WatchHub,
    pub registry: HeldRegistry,
}

/// Why a request for a lock is not let in, if it is not: the server drains,
/// the caller is unknown, the lease is too long, or the caller may not.
pub open spec fn admission_fault(
    ready: bool,
    acl: AclV,
    config: ServiceConfig,
    bearer: Option<Seq<char>>,
    key: Seq<char>,
    pb: Option<LockOptionsPb>,
) -> Option<StatusV> {
    if !ready {
        Some(refusal(Code::Unavailable, "server is draining"@))
    } else {
        match resolved(acl, bearer) {
            Err(s) => Some(s),
            Ok(p) => if asked_ttl(pb, config) > config.max_ttl@ {
                Some(too_long(asked_ttl(pb, config), config.max_ttl@))
            } else {
                lock_verdict(p, key)
            },
        }
    }
}

/// A name that the book does not know, where a session is named at all.
pub open spec fn session_missing(session: Seq<char>, book: Map<Seq<char>, SessionV>) -> bool {
    session.len() > 0 && !book.dom().contains(session)
}

/// The sessions after a grant was bound to `session`, where one is named.
pub open spec fn after_grant_bound(
    book: Map<Seq<char>, SessionV>,
    session: Seq<char>,
    key: Seq<char>,
    token: Seq<char>,
    now: u128,
) -> Map<Seq<char>, SessionV> {
    if session.len() == 0 {
        book
    } else {
        book.insert(
            session,
            SessionV {
                last_seen: now,
                locks: book[session].locks.push((key, token)),
                ..book[session]
            },
        )
    }
}

impl PalisadeService {
    /// The service over `manager`, in open mode and ready.
    pub fn new(manager: RedisLockManager, config: ServiceConfig) -> (r: Self)
        ensures
            r.manager == manager,
            r.config == config,
            r.ready,
            r.sessions@ == Map::<Seq<char>, SessionV>::empty(),
            r.acl@.open,
            r.hub@ == Map::<Seq<char>, Watched>::empty(),
            r.registry@ == Map::<Seq<char>, Seq<char>>::empty(),
    {
        PalisadeService {
            manager,
            config,
            ready: true,
            sessions: SessionBook::new(),
            acl: Acl::open(),
            hub: WatchHub::new(),
            registry: HeldRegistry::new(),
        }
    }

    /// The same service with `acl` in place of open mode.
    pub fn with_acl(self, acl: Acl) -> (r: Self)
        ensures
            r == (PalisadeService { acl, ..self }),
    {
        PalisadeService { acl, ..self }
    }

    /// The session book.
    pub fn session_book(&self) -> (r: &SessionBook)
        ensures
            *r == self.sessions,
    {
        &self.sessions
    }

    /// Flips readiness. While the server drains, new grants are refused and
    /// existing leases stay as they are.
    pub fn set_ready(&mut self, ready: bool)
        ensures
            *final(self) == (PalisadeService { ready, ..*old(self) }),
    {
        self.ready = ready;
    }

    /// The readiness, for whoever drains the server from outside.
    pub fn ready_handle(&mut self) -> (r: &mut bool)
        ensures
            *r == old(self).ready,
            *final(self) == (PalisadeService { ready: *final(r), ..*old(self) }),
    {
        &mut self.ready
    }

    /// The lock manager.
    pub fn manager(&self) -> (r: &RedisLockManager)
        ensures
            *r == self.manager,
    {
        &self.manager
    }

    /// Refuses new grants while the server drains.
    pub fn check_ready(&self) -> (r: Result<(), Status>)
        ensures
            r is Ok <==> self.ready,
            r matches Err(s) ==> s@ == refusal(Code::Unavailable, "server is draining"@),
    {
        if self.ready {
            Ok(())
        } else {
            Err(Status::new(Code::Unavailable, "server is draining"))
        }
    }

    /// Lets a request for a lock in, or refuses it.
    pub fn let_in(
        &self,
        bearer: Option<&str>,
        key: &str,
        options: Option<LockOptionsPb>,
        session: &str,
    ) -> (r: Result<Admission, Status>)
        ensures
            match admission_fault(
                self.ready,
                self.acl@,
                self.config,
                header(bearer),
                key@,
                options,
            ) {
                Some(fault) => r matches Err(s) && s@ == fault,
                None => r matches Ok(a) && a.key@ == key@ && a.session@ == session@
                    && a.principal@ == resolved(self.acl@, header(bearer))->Ok_0.cfg.name
                    && a.max_keys == resolved(self.acl@, header(bearer))->Ok_0.cfg.max_keys
                    && asks(options, self.config, a.options),
            },
    {
        match self.check_ready() {
            Ok(()) => {},
            Err(s) => {
                return Err(s);
            },
        }
        let principal = match self.acl.resolve(bearer) {
            Ok(p) => p,
            Err(s) => {
                return Err(s);
            },
        };
        let options = match options_from_pb(options, &self.config) {
            Ok(o) => o,
            Err(s) => {
                return Err(s);
            },
        };
        match principal.check_lock(key) {
            Ok(()) => {},
            Err(s) => {
                return Err(s);
            },
        }
        Ok(
            Admission {
                key: key.to_owned(),
                session: session.to_owned(),
                principal: principal.name().to_owned(),
                max_keys: principal.max_keys(),
                options,
            },
        )
    }

    /// The lease that a request which was let in is granted.
    pub open spec fn lease_of(self, admission: Admission) -> Span {
        admission.options.lease(self.manager.default_ttl)
    }

    /// Begins an attempt for a request that was let in.
    pub fn attempt(&self, admission: &Admission) -> (r: Result<PendingLock, Status>)
        requires
            sendable(self.lease_of(*admission)@),
        ensures
            if self.lease_of(*admission)@ < min_ttl() {
                r matches Err(s) && s@ == internal(
                    ErrorV::InvalidConfig(below_floor("ttl "@, self.lease_of(*admission)@)),
                )
            } else {
                r matches Ok(p) && p.key@ == admission.key@ && p.ttl == self.lease_of(*admission)
                    && p.owner.minted() && p.watchdog == (match admission.options.watchdog {
                    Some(w) => w,
                    None => self.manager.watchdog_default,
                })
            },
    {
        match self.manager.try_lock_with(admission.key.as_str(), &admission.options) {
            Ok(p) => Ok(p),
            Err(e) => Err(internal_status(&e)),
        }
    }

    /// A request for a lock: lets it in and begins the attempt.
    pub fn try_lock(&self, bearer: Option<&str>, req: &TryLockRequest) -> (r: Result<
        (Admission, PendingLock),
        Status,
    >)
        requires
            lease_fits(req.options, self.config),
        ensures
            match admission_fault(
                self.ready,
                self.acl@,
                self.config,
                header(bearer),
                req.key@,
                req.options,
            ) {
                Some(fault) => r matches Err(s) && s@ == fault,
                None => if asked_ttl(req.options, self.config) < min_ttl() {
                    r matches Err(s) && s@ == internal(
                        ErrorV::InvalidConfig(
                            below_floor("ttl "@, asked_ttl(req.options, self.config)),
                        ),
                    )
                } else {
                    r matches Ok((a, p)) && a.key@ == req.key@ && a.session@ == req.session@
                        && a.principal@ == resolved(self.acl@, header(bearer))->Ok_0.cfg.name
                        && a.max_keys == resolved(self.acl@, header(bearer))->Ok_0.cfg.max_keys
                        && asks(req.options, self.config, a.options) && p.key@ == req.key@
                        && p.ttl@ == asked_ttl(req.options, self.config) && sendable(p.ttl@)
                        && p.owner.minted() && p.watchdog == (match asked_watchdog(req.options) {
                        Some(w) => w,
                        None => self.manager.watchdog_default,
                    })
                },
            },
    {
        let admission = match self.let_in(
            bearer,
            req.key.as_str(),
            req.options,
            req.session.as_str(),
        ) {
            Ok(a) => a,
            Err(s) => {
                return Err(s);
            },
        };
        match self.attempt(&admission) {
            Ok(p) => Ok((admission, p)),
            Err(s) => Err(s),
        }
    }

    /// What a grant leads to: it is bound to the session that was named, and
    /// counted for the principal; where either fails it is undone; otherwise
    /// it is handed over to the client.
    fn settle_grant(&mut self, admission: &Admission, h: RedisLockHandle, now: u128) -> (r: GrantEnd)
        requires
            !h.released,
        ensures
            grant_settled(*old(self), *final(self), *admission, h, now, r),
    {
        let mut h = h;
        let token = h.owner.token();
        if !is_empty(admission.session.as_str()) {
            if !self.sessions.bind(
                admission.session.as_str(),
                admission.key.as_str(),
                token.as_str(),
                now,
            ) {
                return GrantEnd {
                    answer: Err(Status::new(Code::NotFound, "unknown session")),
                    undo: h.release(),
                };
            }
        }
        if !self.registry.try_acquire(
            admission.key.as_str(),
            admission.principal.as_str(),
            admission.max_keys,
        ) {
            return GrantEnd {
                answer: Err(
                    Status {
                        code: Code::ResourceExhausted,
                        message: "principal `".to_owned().concat(
                            admission.principal.as_str(),
                        ).concat("` hit max_keys"),
                        audit: Some(
                            AuditLine::denied(
                                admission.principal.as_str(),
                                "lock",
                                admission.key.as_str(),
                            ),
                        ),
                    },
                ),
                undo: h.release(),
            };
        }
        let fencing_token: u64 = h.fence.value();
        h.disarm();
        GrantEnd {
            answer: Ok(
                GrantOutcome::Granted {
                    token,
                    fencing_token,
                    ttl_ms: admission.options.lease_or(self.manager.default_ttl).as_millis(),
                },
            ),
            undo: None,
        }
    }

    /// A request for a lock: the answer.
    pub fn try_locked(
        &mut self,
        admission: &Admission,
        attempt: Result<RedisLockHandle, Error>,
        now: u128,
    ) -> (r: GrantEnd)
        requires
            attempt matches Ok(h) ==> !h.released,
        ensures
            match attempt {
                Ok(h) => grant_settled(*old(self), *final(self), *admission, h, now, r),
                Err(e) => {
                    &&& *final(self) == *old(self)
                    &&& r.undo is None
                    &&& if e@ is Held {
                        r.answer matches Ok(GrantOutcome::Held { key }) && key@ == admission.key@
                    } else {
                        r.answer matches Err(s) && s@ == internal(e@)
                    }
                },
            },
    {
        match attempt {
            Ok(h) => self.settle_grant(admission, h, now),
            Err(e) => if e.is_held() {
                GrantEnd {
                    answer: Ok(GrantOutcome::Held { key: admission.key.clone() }),
                    undo: None,
                }
            } else {
                GrantEnd { answer: Err(internal_status(&e)), undo: None }
            },
        }
    }

    /// A request for a lock that may wait: lets it in, and tells how long it
    /// waits.
    pub fn try_lock_for(&self, bearer: Option<&str>, req: &TryLockForRequest) -> (r: Result<
        (Admission, Span),
        Status,
    >)
        ensures
            match admission_fault(
                self.ready,
                self.acl@,
                self.config,
                header(bearer),
                req.key@,
                req.options,
            ) {
                Some(fault) => r matches Err(s) && s@ == fault,
                None => r matches Ok((a, wait)) && a.key@ == req.key@ && a.session@ == req.session@
                    && a.principal@ == resolved(self.acl@, header(bearer))->Ok_0.cfg.name
                    && a.max_keys == resolved(self.acl@, header(bearer))->Ok_0.cfg.max_keys
                    && asks(req.options, self.config, a.options) && wait@ == req.wait_ms
                    * 1_000_000,
            },
    {
        match self.let_in(bearer, req.key.as_str(), req.options, req.session.as_str()) {
            Ok(a) => Ok((a, Span::from_millis(req.wait_ms))),
            Err(s) => Err(s),
        }
    }

    /// A request for a lock that may wait: the answer.
    pub fn try_locked_for(
        &mut self,
        admission: &Admission,
        attempt: Result<RedisLockHandle, Error>,
        now: u128,
    ) -> (r: GrantEnd)
        requires
            attempt matches Ok(h) ==> !h.released,
        ensures
            match attempt {
                Ok(h) => grant_settled(*old(self), *final(self), *admission, h, now, r),
                Err(e) => {
                    &&& *final(self) == *old(self)
                    &&& r.undo is None
                    &&& if e@ is Held {
                        r.answer matches Ok(GrantOutcome::Held { key }) && key@ == admission.key@
                    } else if e@ is Timeout {
                        r.answer matches Ok(GrantOutcome::TimedOut { key }) && key@
                            == admission.key@
                    } else {
                        r.answer matches Err(s) && s@ == internal(e@)
                    }
                },
            },
    {
        if let Err(e) = &attempt {
            if let Error::Timeout { .. } = e {
                return GrantEnd {
                    answer: Ok(GrantOutcome::TimedOut { key: admission.key.clone() }),
                    undo: None,
                };
            }
        }
        self.try_locked(admission, attempt, now)
    }

    /// A request to unlock: lets it in and says what to send.
    pub fn unlock(&self, bearer: Option<&str>, req: &UnlockRequest) -> (r: Result<
        Farewell,
        Status,
    >)
        ensures
            match permission_fault(self.acl@, header(bearer), Permission::Unlock, req.key@) {
                Some(fault) => r matches Err(s) && s@ == fault,
                None => r matches Ok(f) && f.bids(req.key@, req.token@),
            },
    {
        let principal = match self.acl.resolve(bearer) {
            Ok(p) => p,
            Err(s) => {
                return Err(s);
            },
        };
        match principal.check_unlock(req.key.as_str()) {
            Ok(()) => Ok(
                self.manager.unlock_with_token(req.key.as_str(), req.token.as_str()),
            ),
            Err(s) => Err(s),
        }
    }

    /// A request to unlock: the answer. A released key frees the slot of its
    /// holder.
    pub fn unlocked(&mut self, req: &UnlockRequest, reply: Result<i64, String>) -> (r: Result<
        OwnedOutcome,
        Status,
    >)
        ensures
            final(self).registry@ == if reply == Ok::<i64, String>(1) {
                old(self).registry@.remove(req.key@)
            } else {
                old(self).registry@
            },
            *final(self) == (PalisadeService { registry: final(self).registry, ..*old(self) }),
            match reply {
                Ok(n) => r == Ok::<OwnedOutcome, Status>(
                    if n == 1 {
                        OwnedOutcome::Done
                    } else {
                        OwnedOutcome::Lost { fencing_token: 0 }
                    },
                ),
                Err(m) => r matches Err(s) && s@ == internal(
                    ErrorV::Backend("unlock failed: "@ + m@),
                ),
            },
    {
        match self.manager.unlocked_with_token(reply) {
            Ok(true) => {
                self.registry.release(req.key.as_str());
                Ok(OwnedOutcome::Done)
            },
            Ok(false) => Ok(OwnedOutcome::Lost { fencing_token: 0 }),
            Err(e) => Err(internal_status(&e)),
        }
    }

    /// A request to renew a lease: lets it in and says what to send.
    pub fn extend(&self, bearer: Option<&str>, req: &RenewRequest) -> (r: Result<
        Invocation,
        Status,
    >)
        requires
            req.ttl_ms as nat * 1_000_000 <= self.config.max_ttl@ ==> sendable(
                req.ttl_ms as nat * 1_000_000,
            ),
        ensures
            match permission_fault(self.acl@, header(bearer), Permission::Extend, req.key@) {
                Some(fault) => r matches Err(s) && s@ == fault,
                None => {
                    let ttl = req.ttl_ms as nat * 1_000_000;
                    if ttl > self.config.max_ttl@ {
                        r matches Err(s) && s@ == too_long(ttl, self.config.max_ttl@)
                    } else if ttl < min_ttl() {
                        r matches Err(s) && s@ == internal(
                            ErrorV::InvalidConfig(below_floor("extend ttl "@, ttl)),
                        )
                    } else {
                        r matches Ok(i) && i@ == extend_call(req.key@, req.token@, ttl)
                    }
                },
            },
    {
        let principal = match self.acl.resolve(bearer) {
            Ok(p) => p,
            Err(s) => {
                return Err(s);
            },
        };
        match principal.check_extend(req.key.as_str()) {
            Ok(()) => {},
            Err(s) => {
                return Err(s);
            },
        }
        let ttl = Span::from_millis(req.ttl_ms);
        if self.config.max_ttl.less_than(&ttl) {
            return Err(too_long_status(&ttl, &self.config.max_ttl));
        }
        match self.manager.extend_with_token(req.key.as_str(), req.token.as_str(), &ttl) {
            Ok(i) => Ok(i),
            Err(e) => Err(internal_status(&e)),
        }
    }

    /// A request to renew a lease: the answer.
    pub fn extended(&self, reply: Result<i64, String>) -> (r: Result<OwnedOutcome, Status>)
        ensures
            match reply {
                Ok(n) => r == Ok::<OwnedOutcome, Status>(
                    if n == 1 {
                        OwnedOutcome::Done
                    } else {
                        OwnedOutcome::Lost { fencing_token: 0 }
                    },
                ),
                Err(m) => r matches Err(s) && s@ == internal(
                    ErrorV::Backend("extend failed: "@ + m@),
                ),
            },
    {
        match self.manager.extended_with_token(reply) {
            Ok(true) => Ok(OwnedOutcome::Done),
            Ok(false) => Ok(OwnedOutcome::Lost { fencing_token: 0 }),
            Err(e) => Err(internal_status(&e)),
        }
    }

    /// A request to watch `key`: takes a watcher slot and subscribes.
    pub fn watch(&mut self, bearer: Option<&str>, key: &str) -> (r: Result<
        (WatcherGuard, Subscribed),
        Status,
    >)
        requires
            old(self).hub@.dom().contains(key@) ==> old(self).hub@[key@].receivers < usize::MAX,
        ensures
            *final(self) == (PalisadeService {
                acl: final(self).acl,
                hub: final(self).hub,
                ..*old(self)
            }),
            final(self).acl@.open == old(self).acl@.open,
            match watch_fault(old(self).acl@, header(bearer), key@) {
                Some(fault) => {
                    &&& r matches Err(s) && s@ == fault
                    &&& final(self).acl@ == old(self).acl@
                    &&& final(self).hub@ == old(self).hub@
                },
                None => {
                    &&& r matches Ok((g, s)) && s.start_poller == !old(self).hub@.dom().contains(
                        key@,
                    ) && s.current == (if s.start_poller {
                        None
                    } else {
                        first_event(old(self).hub@[key@].state)
                    })
                    &&& final(self).hub@ == place_taken(old(self).hub@, key@)
                    &&& old(self).acl@.open ==> r->Ok_0.0.token is None && final(self).acl@
                        == old(self).acl@
                    &&& !old(self).acl@.open ==> {
                        let token = identify(old(self).acl@, header(bearer))->Ok_0;
                        &&& r->Ok_0.0.token matches Some(t) && t@ == token
                        &&& final(self).acl@.by_token == old(self).acl@.by_token.insert(
                            token,
                            watched(old(self).acl@.by_token[token]),
                        )
                    }
                },
            },
    {
        match self.acl.check_watch(bearer, key) {
            Ok(guard) => {
                let subscribed = self.hub.subscribe(key);
                Ok((guard, subscribed))
            },
            Err(s) => Err(s),
        }
    }

    /// A watcher is gone: frees its slot and its place among the subscribers.
    pub fn watch_ended(&mut self, guard: WatcherGuard, key: &str)
        ensures
            *final(self) == (PalisadeService {
                acl: final(self).acl,
                hub: final(self).hub,
                ..*old(self)
            }),
            final(self).acl@.open == old(self).acl@.open,
            final(self).acl@.by_token == (match guard.token {
                Some(t) => slot_freed(old(self).acl@.by_token, t@),
                None => old(self).acl@.by_token,
            }),
            final(self).hub@ == place_left(old(self).hub@, key@),
    {
        self.acl.end_watch(guard);
        self.hub.unsubscribe(key);
    }
}

/// A session that was opened.
#[derive(Debug)]
pub struct SessionOpened {
    pub session_token: String,
    pub ttl_ms: u64,
}

/// The lease of a session: 10 s where none is asked, at most the maximum.
pub open spec fn session_lease(ttl_ms: u64, max: nat) -> nat {
    let asked = ttl_ms as nat * 1_000_000;
    if ttl_ms == 0 {
        10_000_000_000
    } else if asked <= max {
        asked
    } else {
        max
    }
}

/// What a forced unlock did.
#[derive(Debug)]
pub struct ForcedUnlock {
    pub released: bool,
    /// Whose slot was freed, if the key was tracked.
    pub victim: Option<String>,
    pub audit: AuditLine,
}

impl PalisadeService {
    /// A request to open a session, at `now`.
    pub fn register_session(&mut self, client_id: String, ttl_ms: u64, now: u128) -> (r:
        SessionOpened)
        ensures
            *final(self) == (PalisadeService { sessions: final(self).sessions, ..*old(self) }),
            r.ttl_ms == millis(session_lease(ttl_ms, old(self).config.max_ttl@)),
            exists|owner: OwnerId|
                owner.minted() && r.session_token@ == #[trigger] owner.token_text(),
            final(self).sessions@ == old(self).sessions@.insert(
                r.session_token@,
                SessionV {
                    client_id: client_id@,
                    ttl: session_lease(ttl_ms, old(self).config.max_ttl@),
                    last_seen: now,
                    locks: seq![],
                },
            ),
    {
        let ttl = if ttl_ms == 0 {
            Span::from_secs(10)
        } else {
            Span::from_millis(ttl_ms).min(self.config.max_ttl)
        };
        let session_token = self.sessions.register(client_id, ttl, now);
        SessionOpened { session_token, ttl_ms: ttl.as_millis() }
    }

    /// A heartbeat of a session, at `now`.
    pub fn heartbeat(&mut self, session_token: &str, now: u128) -> (r: Result<(), Status>)
        ensures
            *final(self) == (PalisadeService { sessions: final(self).sessions, ..*old(self) }),
            match heartbeat_answer(old(self).sessions@, session_token@, now) {
                HbResult::Accepted => {
                    &&& r is Ok
                    &&& final(self).sessions@ == old(self).sessions@.insert(
                        session_token@,
                        SessionV { last_seen: now, ..old(self).sessions@[session_token@] },
                    )
                },
                HbResult::RateLimited => {
                    &&& r matches Err(s) && s@ == refusal(
                        Code::ResourceExhausted,
                        "heartbeat exceeds rate floor (ttl/20); use the documented ttl/3 cadence"@,
                    )
                    &&& final(self).sessions@ == old(self).sessions@
                },
                HbResult::Unknown => {
                    &&& r matches Err(s) && s@ == refusal(
                        Code::NotFound,
                        "unknown or expired session"@,
                    )
                    &&& final(self).sessions@ == old(self).sessions@
                },
            },
    {
        match self.sessions.heartbeat(session_token, now) {
            HbResult::Accepted => Ok(()),
            HbResult::RateLimited => Err(
                Status::new(
                    Code::ResourceExhausted,
                    "heartbeat exceeds rate floor (ttl/20); use the documented ttl/3 cadence",
                ),
            ),
            HbResult::Unknown => Err(Status::new(Code::NotFound, "unknown or expired session")),
        }
    }

    /// A request to close a session: ends it and says what to send to release
    /// its locks.
    pub fn close_session(&mut self, session_token: &str) -> (r: Vec<Farewell>)
        ensures
            *final(self) == (PalisadeService { sessions: final(self).sessions, ..*old(self) }),
            final(self).sessions@ == old(self).sessions@.remove(session_token@),
            bid_farewell(bound_under(old(self).sessions@, session_token@), r@),
    {
        farewells(&self.sessions.close(session_token))
    }

    /// A request to close a session: how many locks were released.
    pub fn session_closed(&self, results: &Vec<Result<bool, Error>>) -> (r: u32)
        requires
            results@.len() <= u32::MAX,
        ensures
            r == freed(results@),
    {
        count_released(results)
    }

    /// A request to describe `key`: takes the right to watch it, but no slot, and
    /// asks for no quota.
    pub fn describe_key(&self, bearer: Option<&str>, key: &str) -> (r: Result<
        DescribeCalls,
        Status,
    >)
        ensures
            match permission_fault(self.acl@, header(bearer), Permission::Watch, key@) {
                Some(fault) => r matches Err(s) && s@ == fault,
                None => r matches Ok(d) && d.held@ == cmd("EXISTS"@).text(key@) && d.version@
                    == cmd("GET"@).text(fence_key(key@)) && d.lease@ == cmd("PTTL"@).text(key@),
            },
    {
        let principal = match self.acl.resolve(bearer) {
            Ok(p) => p,
            Err(s) => {
                return Err(s);
            },
        };
        match principal.may(key, Permission::Watch) {
            Ok(()) => Ok(self.manager.describe_key(key)),
            Err(s) => Err(s),
        }
    }

    /// A request to describe a key: the answer.
    pub fn described(&self, told: Result<(bool, u64, u64), Error>) -> (r: Result<
        (bool, u64, u64),
        Status,
    >)
        ensures
            match told {
                Ok(d) => r == Ok::<(bool, u64, u64), Status>(d),
                Err(e) => r matches Err(s) && s@ == internal(e@),
            },
    {
        match told {
            Ok(d) => Ok(d),
            Err(e) => Err(internal_status(&e)),
        }
    }

    /// A request to unlock `key` whoever owns it: lets it in, and says what to
    /// send and on whose behalf.
    pub fn unlock_force(&self, bearer: Option<&str>, key: &str) -> (r: Result<
        (String, Command),
        Status,
    >)
        ensures
            match permission_fault(self.acl@, header(bearer), Permission::Admin, key@) {
                Some(fault) => r matches Err(s) && s@ == fault,
                None => r matches Ok((who, c)) && who@ == resolved(
                    self.acl@,
                    header(bearer),
                )->Ok_0.cfg.name && c@ == cmd("DEL"@).text(key@),
            },
    {
        let principal = match self.acl.resolve(bearer) {
            Ok(p) => p,
            Err(s) => {
                return Err(s);
            },
        };
        match principal.check_admin(key) {
            Ok(()) => Ok((principal.name().to_owned(), self.manager.force_unlock(key))),
            Err(s) => Err(s),
        }
    }

    /// A request to unlock a key whoever owns it: the answer. The slot of the
    /// original holder is freed, not one of the administrator.
    pub fn force_unlocked(&mut self, who: &str, key: &str, reply: Result<i64, String>) -> (r: Result<
        ForcedUnlock,
        Status,
    >)
        ensures
            *final(self) == (PalisadeService { registry: final(self).registry, ..*old(self) }),
            match reply {
                Ok(n) => {
                    &&& final(self).registry@ == old(self).registry@.remove(key@)
                    &&& r matches Ok(f) && f.released == (n > 0) && (match f.victim {
                        Some(v) => old(self).registry@.dom().contains(key@) && v@ == old(
                            self,
                        ).registry@[key@],
                        None => !old(self).registry@.dom().contains(key@),
                    }) && f.audit@ == (AuditLineV {
                        principal: who@,
                        action: "force-unlock"@,
                        key: key@,
                        outcome: if n > 0 {
                            "released"@
                        } else {
                            "key-absent"@
                        },
                    })
                },
                Err(m) => {
                    &&& final(self).registry@ == old(self).registry@
                    &&& r matches Err(s) && s@ == internal(
                        ErrorV::Backend("force unlock failed: "@ + m@),
                    )
                },
            },
    {
        match self.manager.force_unlocked(reply) {
            Ok(released) => {
                let victim = self.registry.release(key);
                let audit = Acl::audit(
                    who,
                    "force-unlock",
                    key,
                    if released {
                        "released"
                    } else {
                        "key-absent"
                    },
                );
                Ok(ForcedUnlock { released, victim, audit })
            },
            Err(e) => Err(internal_status(&e)),
        }
    }

    /// A request to list the held keys under `prefix`: lets it in and begins
    /// the enumeration.
    pub fn list_locks(&self, bearer: Option<&str>, prefix: &str) -> (r: Result<
        (AuditLine, Scan),
        Status,
    >)
        ensures
            match permission_fault(self.acl@, header(bearer), Permission::Admin, prefix@) {
                Some(fault) => r matches Err(s) && s@ == fault,
                None => r matches Ok((audit, scan)) && audit@ == (AuditLineV {
                    principal: resolved(self.acl@, header(bearer))->Ok_0.cfg.name,
                    action: "list-locks"@,
                    key: prefix@,
                    outcome: "ok"@,
                }) && scan.wf() && scan.fresh && scan.cursor == 0 && scan.batch@.len() == 0
                    && scan.found@.len() == 0 && scan.prefix@ == prefix@,
            },
    {
        let principal = match self.acl.resolve(bearer) {
            Ok(p) => p,
            Err(s) => {
                return Err(s);
            },
        };
        match principal.check_admin(prefix) {
            Ok(()) => Ok(
                (
                    Acl::audit(principal.name(), "list-locks", prefix, "ok"),
                    self.manager.scan_held(prefix),
                ),
            ),
            Err(s) => Err(s),
        }
    }

    /// A request to list held keys: the entries, or the one failure.
    pub fn listed(&self, found: Result<Vec<(String, u64)>, Error>) -> (r: Result<
        Vec<KeyState>,
        Status,
    >)
        ensures
            match found {
                Ok(entries) => r matches Ok(states) && states@.len() == entries@.len() && forall|
                    i: int,
                |
                    0 <= i < entries@.len() ==> (#[trigger] states@[i]).key@ == entries@[i].0@
                        && states@[i].held && states@[i].ttl_ms == entries@[i].1,
                Err(e) => r matches Err(s) && s@ == internal(e@),
            },
    {
        let entries = match found {
            Ok(entries) => entries,
            Err(e) => {
                return Err(internal_status(&e));
            },
        };
        let mut states: Vec<KeyState> = Vec::new();
        let mut i: usize = 0;
        while i < entries.len()
            invariant
                0 <= i <= entries@.len(),
                states@.len() == i,
                forall|j: int|
                    0 <= j < i ==> (#[trigger] states@[j]).key@ == entries@[j].0@
                        && states@[j].held && states@[j].ttl_ms == entries@[j].1,
            decreases entries@.len() - i,
        {
            states.push(
                KeyState { key: entries[i].0.clone(), held: true, ttl_ms: entries[i].1 },
            );
            i += 1;
        }
        Ok(states)
    }
}

/// What a grant leads to, from one state of the service to the next.
pub open spec fn grant_settled(
    before: PalisadeService,
    after: PalisadeService,
    admission: Admission,
    h: RedisLockHandle,
    now: u128,
    end: GrantEnd,
) -> bool {
    let book = before.sessions@;
    let bound_book = after_grant_bound(
        book,
        admission.session@,
        admission.key@,
        h.owner.token_text(),
        now,
    );
    let full = !before.registry@.dom().contains(admission.key@) && at_ceiling(
        before.registry@,
        admission.principal@,
        admission.max_keys,
    );
    &&& after == (PalisadeService {
        sessions: after.sessions,
        registry: after.registry,
        ..before
    })
    &&& if session_missing(admission.session@, book) {
        &&& end.answer matches Err(s) && s@ == refusal(Code::NotFound, "unknown session"@)
        &&& end.undo matches Some(f) && h.says_farewell(f)
        &&& after.sessions@ == book
        &&& after.registry@ == before.registry@
    } else if full {
        &&& end.answer matches Err(s) && s@ == (StatusV {
            code: Code::ResourceExhausted,
            message: "principal `"@ + admission.principal@ + "` hit max_keys"@,
            audit: Some(denied_line(admission.principal@, "lock"@, admission.key@)),
        })
        &&& end.undo matches Some(f) && h.says_farewell(f)
        &&& after.sessions@ == bound_book
        &&& after.registry@ == before.registry@
    } else {
        &&& end.answer matches Ok(GrantOutcome::Granted { token, fencing_token, ttl_ms }) && token@
            == h.owner.token_text() && fencing_token == h.fence@ && ttl_ms == millis(
            before.lease_of(admission)@,
        )
        &&& end.undo is None
        &&& after.sessions@ == bound_book
        &&& after.registry@ == after_acquire(
            before.registry@,
            admission.key@,
            admission.principal@,
            admission.max_keys,
        )
    }
}

/// Why a caller may not do an operation on `key`, if it may not.
pub open spec fn permission_fault(
    acl: AclV,
    bearer: Option<Seq<char>>,
    permission: Permission,
    key: Seq<char>,
) -> Option<StatusV> {
    match resolved(acl, bearer) {
        Err(s) => Some(s),
        Ok(p) => denial(p.cfg, permission, key),
    }
}

/// Why a caller may not watch `key` now, if it may not.
pub open spec fn watch_fault(
    acl: AclV,
    bearer: Option<Seq<char>>,
    key: Seq<char>,
) -> Option<StatusV> {
    match resolved(acl, bearer) {
        Err(s) => Some(s),
        Ok(p) => watch_verdict(p, key),
    }
}

/// A draining server grants nothing: every request for a lock is refused as
/// unavailable, whoever asks for whatever.
pub proof fn draining_servers_grant_nothing(
    acl: AclV,
    config: ServiceConfig,
    bearer: Option<Seq<char>>,
    key: Seq<char>,
    pb: Option<LockOptionsPb>,
)
    ensures
        admission_fault(false, acl, config, bearer, key, pb) matches Some(s) && s.code
            == Code::Unavailable,
{
}

/// No lease exceeds the server's maximum: a request for a longer one is never
/// let in.
pub proof fn leases_stay_within_the_maximum(
    ready: bool,
    acl: AclV,
    config: ServiceConfig,
    bearer: Option<Seq<char>>,
    key: Seq<char>,
    pb: Option<LockOptionsPb>,
)
    requires
        admission_fault(ready, acl, config, bearer, key, pb) is None,
    ensures
        asked_ttl(pb, config) <= config.max_ttl@,
{
}

/// A refused grant is undone: whenever the answer to a grant is a refusal, the
/// lock is released in the store and no slot is counted for it.
pub proof fn refused_grants_are_undone(
    before: PalisadeService,
    after: PalisadeService,
    admission: Admission,
    h: RedisLockHandle,
    now: u128,
    end: GrantEnd,
)
    requires
        grant_settled(before, after, admission, h, now, end),
        end.answer is Err,
    ensures
        end.undo matches Some(f) && h.says_farewell(f),
        after.registry@ == before.registry@,
{
}

} // verus!
