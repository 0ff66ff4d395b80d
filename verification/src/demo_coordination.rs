//! The web demo's latches, semantic locks, testaments, sessions and watch
//! events.

use vstd::prelude::*;
use vstd::string::*;
use vstd::utf8::encode_utf8;

use crate::command::{call, cmd, Command, Invocation, Script};
use crate::demo::{api_error, bad_request, clamp_ttl, clamped, ms, ApiError, ApiErrorV, DemoState,
    Observation};
use crate::demo_handles::{capped_wait, clamp_wait};
use crate::error::{backend, Error, ErrorV};
use crate::latch::{latch_init_call, LatchWait, RedisCountDownLatch};
use crate::owner::OwnerId;
use crate::payloads::{LatchCountResponse, LatchCreateRequest, LatchKeyRequest, LatchWaitRequest,
    LatchWaitResponse, PredicateSpec, SemanticAcquireRequest, SemanticDataRequest,
    SemanticDataResponse, SemanticOutcome, SessionCloseResponse, SessionHeartbeatOutcome,
    SessionRegisterRequest, SessionRegisterResponse, TestamentReadResponse, TestamentSetRequest,
    TestamentSetResponse};
use crate::poll::end_of_wait;
use crate::semantic::{number_text, predicates, Number, PendingSemantic, PredicateV};
use crate::sessions::{bid_farewell, bound_under, count_released, farewells, freed,
    heartbeat_answer, HbResult, SessionV};
use crate::single::{Farewell, RedisLockHandle};
use crate::span::Span;
use crate::testament::{read_will_call, set_will_call};
use crate::text::{decimal, decimal_of, same};
use crate::watch_hub::LockEvent;

verus! {

/// The longest lease of a session in milliseconds.
pub const MAX_SESSION_TTL_MS: u64 = 60_000;

/// The lease of a session in milliseconds: 10 s where none is asked, at most
/// 60 s.
pub open spec fn session_ttl(ttl_ms: Option<u64>) -> nat {
    let asked: nat = match ttl_ms {
        Some(n) => n as nat,
        None => 10_000,
    };
    if asked < 60_000 {
        asked
    } else {
        60_000
    }
}

/// The text of bytes that may not be UTF-8, as `String::from_utf8_lossy` gives
/// it.
pub uninterp spec fn lossy_text(bytes: Seq<u8>) -> Seq<char>;

/// `String::from_utf8_lossy`: the same bytes always give the same text, and the
/// UTF-8 bytes of a text give that text.
#[verifier::external_body]
fn utf8_lossy(bytes: &Vec<u8>) -> (r: String)
    ensures
        r@ == lossy_text(bytes@),
        forall|t: Seq<char>| #[trigger] encode_utf8(t) == bytes@ ==> r@ == t,
{
    String::from_utf8_lossy(bytes).into_owned()
}

/// The JSON text of a watch event. The words are of small letters, so nothing
/// in them is escaped.
pub open spec fn event_text(word: Seq<char>, version: u64) -> Seq<char> {
    "{\"event\":\""@ + word + "\",\"version\":"@ + decimal(version as nat) + "}"@
}

fn event_json(word: &str, version: u64) -> (r: String)
    ensures
        r@ == event_text(word@, version),
{
    "{\"event\":\"".to_owned().concat(word).concat("\",\"version\":").concat(
        decimal_of(version).as_str(),
    ).concat("}")
}

/// The text that a browser gets for a watch event.
pub fn render_event(event: &LockEvent) -> (r: String)
    ensures
        r@ == match event {
            LockEvent::Acquired { version } => event_text("acquired"@, *version),
            LockEvent::Freed { version } => event_text("freed"@, *version),
        },
{
    match event {
        LockEvent::Acquired { version } => event_json("acquired", *version),
        LockEvent::Freed { version } => event_json("freed", *version),
    }
}

/// The predicate that a request asks for, or its refusal.
pub open spec fn compiled(p: PredicateSpec) -> Result<PredicateV, ApiErrorV> {
    if p.op@ == "eq"@ {
        Ok(
            PredicateV::Equals {
                field: p.field@,
                value: match p.value {
                    Some(v) => v@,
                    None => seq![],
                },
            },
        )
    } else if p.op@ == "gt"@ {
        match p.number {
            Some(n) if number_text(n@) => Ok(
                PredicateV::FieldGt { field: p.field@, value: n@ },
            ),
            _ => Err(bad_request("predicate `"@ + p.field@ + "` needs numeric value"@)),
        }
    } else if p.op@ == "absent"@ {
        Ok(PredicateV::Absent { field: p.field@ })
    } else {
        Err(bad_request("unknown predicate op `"@ + p.op@ + "` (eq|gt|absent)"@))
    }
}

/// The predicates that a request asks for, in order, or the refusal of the
/// first that is refused.
pub open spec fn compiled_all(ps: Seq<PredicateSpec>) -> Result<Seq<PredicateV>, ApiErrorV>
    decreases ps.len(),
{
    if ps.len() == 0 {
        Ok(seq![])
    } else {
        match compiled_all(ps.drop_last()) {
            Err(e) => Err(e),
            Ok(before) => match compiled(ps.last()) {
                Ok(p) => Ok(before.push(p)),
                Err(e) => Err(e),
            },
        }
    }
}

/// A refusal of the first predicates is a refusal of all.
proof fn lemma_refusal_stays(ps: Seq<PredicateSpec>, n: int)
    requires
        0 <= n <= ps.len(),
        compiled_all(ps.take(n)) is Err,
    ensures
        compiled_all(ps) == compiled_all(ps.take(n)),
    decreases ps.len() - n,
{
    if n == ps.len() {
        assert(ps.take(n) =~= ps);
    } else {
        assert(ps.take(n + 1).drop_last() =~= ps.take(n));
        lemma_refusal_stays(ps, n + 1);
    }
}

/// How a semantic acquisition goes on.
#[derive(Debug)]
pub enum SemanticStep {
    /// This is the answer.
    Answer(Result<SemanticOutcome, ApiError>),
    /// Describe the key, then ask [`DemoState::semantic_denied`].
    Describe,
}

impl DemoState {
    /// `POST /api/latch/create`: begins the creation.
    pub fn latch_create(&self, req: &LatchCreateRequest) -> (r: Result<Invocation, ApiError>)
        ensures
            if req.count >= 1 {
                r matches Ok(i) && i@ == latch_init_call(req.key@, req.count as nat)
            } else {
                r matches Err(e) && e@ == api_error(
                    ErrorV::InvalidConfig("latch initial count must be at least 1"@),
                )
            },
    {
        match RedisCountDownLatch::create(req.key.as_str(), req.count) {
            Ok(i) => Ok(i),
            Err(e) => Err(ApiError::from_error(&e)),
        }
    }

    /// What the other latch requests begin with: an existing latch keeps its
    /// count, a missing one is made with a count of one.
    pub fn latch_adopt(&self, key: &str) -> (r: Result<Invocation, ApiError>)
        ensures
            r matches Ok(i) && i@ == latch_init_call(key@, 1),
    {
        match RedisCountDownLatch::create(key, 1) {
            Ok(i) => Ok(i),
            Err(e) => Err(ApiError::from_error(&e)),
        }
    }

    /// The latch, given the reply to its creation or adoption.
    pub fn latch_created(&self, key: &str, reply: Result<i64, String>) -> (r: Result<
        RedisCountDownLatch,
        ApiError,
    >)
        ensures
            match reply {
                Ok(_) => r matches Ok(l) && l.key@ == key@,
                Err(m) => r matches Err(e) && e@ == api_error(
                    ErrorV::Backend("latch init failed: "@ + m@),
                ),
            },
    {
        match RedisCountDownLatch::created(key, reply) {
            Ok(l) => Ok(l),
            Err(e) => Err(ApiError::from_error(&e)),
        }
    }

    /// `POST /api/latch/count-down`: what to send.
    pub fn latch_count_down(&self, latch: &RedisCountDownLatch) -> (r: Invocation)
        ensures
            r@ == call(Script::LatchCountDown).key(latch.key@),
    {
        latch.count_down()
    }

    /// `GET /api/latch/count/{key}`: what to send.
    pub fn latch_count(&self, latch: &RedisCountDownLatch) -> (r: Invocation)
        ensures
            r@ == call(Script::LatchGet).key(latch.key@),
    {
        latch.count()
    }

    /// The answer of every request that tells a latch's count.
    pub fn latch_counted(&self, latch: &RedisCountDownLatch, reply: Result<i64, String>) -> (r:
        Result<LatchCountResponse, ApiError>)
        ensures
            match reply {
                Ok(v) => if v < 0 {
                    r matches Err(e) && e@ == api_error(ErrorV::Lost { key: latch.key@, fence: 0 })
                } else {
                    r == Ok::<LatchCountResponse, ApiError>(LatchCountResponse { count: v as u64 })
                },
                Err(m) => r matches Err(e) && e@ == api_error(
                    ErrorV::Backend("latch op failed: "@ + m@),
                ),
            },
    {
        match latch.eval_remaining(reply) {
            Ok(count) => Ok(LatchCountResponse { count }),
            Err(e) => Err(ApiError::from_error(&e)),
        }
    }

    /// `POST /api/latch/wait`: begins the wait at `now`.
    pub fn latch_wait(&self, req: &LatchWaitRequest, latch: &RedisCountDownLatch, now: u128) -> (r:
        LatchWait)
        ensures
            r.waiting.key@ == latch.key@,
            r.waiting.deadline == end_of_wait(now, ms(capped_wait(req.timeout_ms, 5_000))),
            !r.waiting.clipped,
    {
        latch.wait_until_zero(&clamp_wait(req.timeout_ms, 5_000), now)
    }

    /// `POST /api/latch/wait`: the answer. Whatever ended the wait other than a
    /// count of zero, the latch did not reach zero.
    pub fn latch_waited(&self, waited: Result<(), Error>) -> (r: LatchWaitResponse)
        ensures
            r.zero == (waited is Ok),
    {
        LatchWaitResponse { zero: waited.is_ok() }
    }

    /// `POST /api/semantic/acquire`: begins the grant. A request without
    /// predicates is refused, then the first predicate that makes no sense.
    pub fn semantic_acquire(&self, req: &SemanticAcquireRequest) -> (r: Result<
        PendingSemantic,
        ApiError,
    >)
        ensures
            if req.predicates@.len() == 0 {
                r matches Err(e) && e@ == bad_request("at least one predicate required"@)
            } else {
                match compiled_all(req.predicates@) {
                    Err(fault) => r matches Err(e) && e@ == fault,
                    Ok(ps) => r matches Ok(p) && p.guard.key@ == req.key@ && predicates(
                        p.guard.preds@,
                    ) == ps && p.guard.preds@.len() > 0 && p.owner.minted() && p.guard.ttl@ == ms(
                        clamped(req.ttl_ms),
                    ) && !p.guard.watchdog,
                }
            },
    {
        if req.predicates.len() == 0 {
            return Err(ApiError::bad_request("at least one predicate required".to_owned()));
        }
        let ghost specs = req.predicates@;
        let mut guard = self.manager.acquire_where(req.key.as_str()).ttl(clamp_ttl(req.ttl_ms));
        let mut i: usize = 0;
        proof {
            assert(specs.take(0) =~= seq![]);
            assert(predicates(guard.preds@) =~= seq![]);
        }
        while i < req.predicates.len()
            invariant
                specs == req.predicates@,
                specs.len() > 0,
                0 <= i <= specs.len(),
                guard.key@ == req.key@,
                guard.ttl@ == ms(clamped(req.ttl_ms)),
                !guard.watchdog,
                compiled_all(specs.take(i as int)) == Ok::<Seq<PredicateV>, ApiErrorV>(
                    predicates(guard.preds@),
                ),
                predicates(guard.preds@).len() == i,
            decreases specs.len() - i,
        {
            let p = &req.predicates[i];
            proof {
                assert(specs.take(i + 1).drop_last() =~= specs.take(i as int));
                assert(specs.take(i + 1).last() == *p);
                if compiled(*p) is Err {
                    lemma_refusal_stays(specs, i + 1);
                }
            }
            if same(p.op.as_str(), "eq") {
                match &p.value {
                    Some(v) => {
                        guard = guard.field_equals(p.field.as_str(), v.as_str());
                    },
                    None => {
                        let empty = String::new();
                        proof {
                            assert(empty@ =~= seq![]);
                        }
                        guard = guard.field_equals(p.field.as_str(), empty.as_str());
                    },
                }
            } else if same(p.op.as_str(), "gt") {
                let number = match &p.number {
                    Some(n) => Number::parse(n.as_str()),
                    None => None,
                };
                match number {
                    Some(n) => {
                        guard = guard.field_gt(p.field.as_str(), n);
                    },
                    None => {
                        return Err(
                            ApiError::bad_request(
                                "predicate `".to_owned().concat(p.field.as_str()).concat(
                                    "` needs numeric value",
                                ),
                            ),
                        );
                    },
                }
            } else if same(p.op.as_str(), "absent") {
                guard = guard.field_absent(p.field.as_str());
            } else {
                return Err(
                    ApiError::bad_request(
                        "unknown predicate op `".to_owned().concat(p.op.as_str()).concat(
                            "` (eq|gt|absent)",
                        ),
                    ),
                );
            }
            i += 1;
        }
        proof {
            assert(specs.take(specs.len() as int) =~= specs);
        }
        match guard.acquire() {
            Ok(p) => Ok(p),
            Err(e) => Err(ApiError::from_error(&e)),
        }
    }

    /// `POST /api/semantic/acquire`: what the outcome of the grant leads to,
    /// and what is observed. The store does not say why it denied.
    pub fn semantic_acquired(&self, attempt: Result<RedisLockHandle, Error>) -> (r: (
        SemanticStep,
        Observation,
    ))
        ensures
            match attempt {
                Ok(h) => {
                    &&& r.0 matches SemanticStep::Answer(
                        Ok(SemanticOutcome::Granted { token, fence }),
                    ) && token@ == h.owner.token_text() && fence == h.fence@
                    &&& r.1 == (Observation { ok: true, denied: false })
                },
                Err(e) => if e@ is Held {
                    r.0 is Describe && r.1 == (Observation { ok: true, denied: true })
                } else {
                    &&& r.0 matches SemanticStep::Answer(Err(a)) && a@ == api_error(e@)
                    &&& r.1 == (Observation { ok: false, denied: false })
                },
            },
    {
        match attempt {
            Ok(h) => {
                let mut h = h;
                let token = h.owner.token();
                let fence: u64 = h.fence.value();
                h.disarm();
                (
                    SemanticStep::Answer(Ok(SemanticOutcome::Granted { token, fence })),
                    Observation { ok: true, denied: false },
                )
            },
            Err(e) => if e.is_held() {
                (SemanticStep::Describe, Observation { ok: true, denied: true })
            } else {
                (
                    SemanticStep::Answer(Err(ApiError::from_error(&e))),
                    Observation { ok: false, denied: false },
                )
            },
        }
    }

    /// `POST /api/semantic/acquire`: the answer to a denial, told apart by
    /// whether the key is held.
    pub fn semantic_denied(&self, told: Result<(bool, u64, u64), Error>) -> (r: Result<
        SemanticOutcome,
        ApiError,
    >)
        ensures
            match told {
                Ok((held, _, _)) => r == Ok::<SemanticOutcome, ApiError>(
                    if held {
                        SemanticOutcome::Held
                    } else {
                        SemanticOutcome::PredicatesFailed
                    },
                ),
                Err(e) => r matches Err(a) && a@ == api_error(e@),
            },
    {
        match told {
            Ok((held, _, _)) => Ok(
                if held {
                    SemanticOutcome::Held
                } else {
                    SemanticOutcome::PredicatesFailed
                },
            ),
            Err(e) => Err(ApiError::from_error(&e)),
        }
    }

    /// The answer where the protected store cannot be reached.
    pub fn data_unreachable(&self, cause: &str) -> (r: ApiError)
        ensures
            r@ == api_error(ErrorV::Backend("data connect: "@ + cause@)),
    {
        ApiError::from_error(&backend("data connect: ", cause))
    }

    /// `POST /api/semantic/data`: what to send.
    pub fn semantic_set_data(&self, req: &SemanticDataRequest) -> (r: Command)
        ensures
            r@ == cmd("HSET"@).text(req.key@).text(req.field@).text(req.value@),
    {
        Command::named("HSET").text(req.key.as_str()).text(req.field.as_str()).text(
            req.value.as_str(),
        )
    }

    /// `POST /api/semantic/data`: the answer.
    pub fn semantic_data_set(&self, reply: Result<(), String>) -> (r: Result<(), ApiError>)
        ensures
            match reply {
                Ok(()) => r is Ok,
                Err(m) => r matches Err(e) && e@ == api_error(
                    ErrorV::Backend("hset failed: "@ + m@),
                ),
            },
    {
        match reply {
            Ok(()) => Ok(()),
            Err(m) => Err(ApiError::from_error(&backend("hset failed: ", m.as_str()))),
        }
    }

    /// `GET /api/semantic/data/{key}`: what to send.
    pub fn semantic_get_data(&self, key: &str) -> (r: Command)
        ensures
            r@ == cmd("HGETALL"@).text(key@),
    {
        Command::named("HGETALL").text(key)
    }

    /// `GET /api/semantic/data/{key}`: the answer.
    pub fn semantic_data_got(&self, reply: Result<Vec<(String, String)>, String>) -> (r: Result<
        SemanticDataResponse,
        ApiError,
    >)
        ensures
            match reply {
                Ok(fields) => r == Ok::<SemanticDataResponse, ApiError>(
                    SemanticDataResponse { fields },
                ),
                Err(m) => r matches Err(e) && e@ == api_error(
                    ErrorV::Backend("hgetall failed: "@ + m@),
                ),
            },
    {
        match reply {
            Ok(fields) => Ok(SemanticDataResponse { fields }),
            Err(m) => Err(ApiError::from_error(&backend("hgetall failed: ", m.as_str()))),
        }
    }

    /// `POST /api/testament/set`: what to send.
    pub fn testament_set(&self, req: &TestamentSetRequest) -> (r: Invocation)
        ensures
            r@ == set_will_call(
                req.key@,
                req.token@,
                ms(clamped(req.ttl_ms)),
                encode_utf8(req.payload@),
            ),
    {
        let ttl = clamp_ttl(req.ttl_ms);
        let payload = req.payload.as_str().as_bytes_vec();
        self.manager.set_testament(req.key.as_str(), req.token.as_str(), &ttl, payload)
    }

    /// `POST /api/testament/set`: the answer.
    pub fn testament_stored(&self, req: &TestamentSetRequest, reply: Result<i64, String>) -> (r:
        Result<TestamentSetResponse, ApiError>)
        ensures
            match reply {
                Ok(n) => if n == 1 {
                    r == Ok::<TestamentSetResponse, ApiError>(
                        TestamentSetResponse { stored: true },
                    )
                } else {
                    r matches Err(e) && e@ == api_error(ErrorV::Lost { key: req.key@, fence: 0 })
                },
                Err(m) => r matches Err(e) && e@ == api_error(
                    ErrorV::Backend("testament set failed: "@ + m@),
                ),
            },
    {
        match self.manager.testament_set(req.key.as_str(), reply) {
            Ok(()) => Ok(TestamentSetResponse { stored: true }),
            Err(e) => Err(ApiError::from_error(&e)),
        }
    }

    /// `GET /api/testament/{key}`: what to send.
    pub fn testament_read(&self, key: &str) -> (r: Invocation)
        ensures
            r@ == read_will_call(key@),
    {
        self.manager.read_testament(key)
    }

    /// `GET /api/testament/{key}`: the answer. A payload that was left as text
    /// is told as that text.
    pub fn testament_told(&self, reply: Result<Option<Vec<u8>>, String>) -> (r: Result<
        TestamentReadResponse,
        ApiError,
    >)
        ensures
            forall|left: Seq<char>|
                (reply matches Ok(Some(b)) && b@ == #[trigger] encode_utf8(left)) ==> (r matches Ok(
                    t,
                ) && t.payload matches Some(p) && p@ == left),
            match reply {
                Ok(Some(b)) => r matches Ok(t) && t.payload matches Some(p) && p@ == lossy_text(b@),
                Ok(None) => r matches Ok(t) && t.payload is None,
                Err(m) => r matches Err(e) && e@ == api_error(
                    ErrorV::Backend("testament read failed: "@ + m@),
                ),
            },
    {
        match self.manager.testament_read(reply) {
            Ok(Some(b)) => Ok(TestamentReadResponse { payload: Some(utf8_lossy(&b)) }),
            Ok(None) => Ok(TestamentReadResponse { payload: None }),
            Err(e) => Err(ApiError::from_error(&e)),
        }
    }

    /// `POST /api/session/register`: opens a session at `now`.
    pub fn session_register(&mut self, req: SessionRegisterRequest, now: u128) -> (r:
        SessionRegisterResponse)
        ensures
            final(self).manager == old(self).manager,
            final(self).live == old(self).live,
            r.ttl_ms == session_ttl(req.ttl_ms),
            exists|owner: OwnerId|
                owner.minted() && r.session_token@ == #[trigger] owner.token_text(),
            final(self).sessions@ == old(self).sessions@.insert(
                r.session_token@,
                SessionV {
                    client_id: req.client_id@,
                    ttl: ms(session_ttl(req.ttl_ms)),
                    last_seen: now,
                    locks: seq![],
                },
            ),
    {
        let asked: u64 = match req.ttl_ms {
            Some(n) => n,
            None => 10_000,
        };
        let ttl_ms: u64 = if asked < MAX_SESSION_TTL_MS {
            asked
        } else {
            MAX_SESSION_TTL_MS
        };
        let session_token = self.sessions.register(req.client_id, Span::from_millis(ttl_ms), now);
        SessionRegisterResponse { session_token, ttl_ms }
    }

    /// `POST /api/session/heartbeat`: a sign of life at `now`.
    pub fn session_heartbeat(&mut self, req: &LatchKeyRequest, now: u128) -> (r:
        SessionHeartbeatOutcome)
        ensures
            final(self).manager == old(self).manager,
            final(self).live == old(self).live,
            r == match heartbeat_answer(old(self).sessions@, req.key@, now) {
                HbResult::Accepted => SessionHeartbeatOutcome::Accepted,
                HbResult::RateLimited => SessionHeartbeatOutcome::RateLimited,
                HbResult::Unknown => SessionHeartbeatOutcome::Unknown,
            },
            final(self).sessions@ == if r == SessionHeartbeatOutcome::Accepted {
                old(self).sessions@.insert(
                    req.key@,
                    SessionV { last_seen: now, ..old(self).sessions@[req.key@] },
                )
            } else {
                old(self).sessions@
            },
    {
        match self.sessions.heartbeat(req.key.as_str(), now) {
            HbResult::Accepted => SessionHeartbeatOutcome::Accepted,
            HbResult::RateLimited => SessionHeartbeatOutcome::RateLimited,
            HbResult::Unknown => SessionHeartbeatOutcome::Unknown,
        }
    }

    /// `POST /api/session/close`: ends a session and says what to send to
    /// release its locks.
    pub fn session_close(&mut self, req: &LatchKeyRequest) -> (r: Vec<Farewell>)
        ensures
            final(self).manager == old(self).manager,
            final(self).live == old(self).live,
            final(self).sessions@ == old(self).sessions@.remove(req.key@),
            bid_farewell(bound_under(old(self).sessions@, req.key@), r@),
    {
        farewells(&self.sessions.close(req.key.as_str()))
    }

    /// `POST /api/session/close`: the answer, given how the releases went.
    pub fn session_closed(&self, results: &Vec<Result<bool, Error>>) -> (r: SessionCloseResponse)
        requires
            results@.len() <= u32::MAX,
        ensures
            r.released_locks == freed(results@),
    {
        SessionCloseResponse { released_locks: count_released(results) }
    }
}

} // verus!
