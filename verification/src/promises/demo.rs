//! The web demo: what requests are made into, and how they are answered.

use vstd::prelude::*;

use crate::command::{ArgV, Command, Invocation, ProgramV, Script, texts};
use crate::demo::{AcquireEnd, ApiError, DemoState, Observation, SemaphorePermit, clamp_ttl, holds,
    parse_safety_policy, rw_map_key, tier_name};
use crate::demo_coordination::{SemanticStep, compiled, compiled_all, render_event};
use crate::demo_handles::{HoldRelease, RwRelease, clamp_wait};
use crate::error::Error;
use crate::fair::{FairLockHandle, PendingFair};
use crate::fencing::FencingToken;
use crate::latch::{LatchWait, RedisCountDownLatch};
use crate::lattice::Tier;
use crate::leases::LeaseCalls;
use crate::multi::{MultiAcquire, MultiLockHandle, MultiRelease};
use crate::options::{LockOptions, SafetyPolicy};
use crate::owner::OwnerId;
use crate::payloads::{AcquireRequest, DescribeResponse, ExtendOutcome, ExtendRequest,
    FairAcquireResponse, FenceReleaseRequest, ForceUnlockRequest, ForceUnlockResponse,
    LatchCountResponse, LatchCreateRequest, LatchKeyRequest, LatchWaitRequest, LatchWaitResponse,
    ListLocksResponse, ListQuery, LockOutcome, MultiAcquireRequest, MultiOutcome,
    MultiReleaseRequest, PredicateSpec, ReentrantAcquireRequest, ReentrantAcquireResponse,
    ReentrantReleaseRequest, ReleaseRequest, ReleasedResponse, RwAcquireRequest, RwOutcome,
    RwReleaseRequest, SemanticAcquireRequest, SemanticDataRequest, SemanticDataResponse,
    SemanticOutcome, SemaphoreAcquireRequest, SemaphoreOutcome, SessionCloseResponse,
    SessionHeartbeatOutcome, SessionRegisterRequest, SessionRegisterResponse, TestamentReadResponse,
    TestamentSetRequest, TestamentSetResponse, UnlockOutcome};
use crate::promises::guards::signed_decimal;
use crate::promises::locks::{keeps_counter, lease_ms, parts, touches};
use crate::promises::server::lemma_freed;
use crate::promises::values::decimals_read_back;
use crate::reentrant::{PendingReentrant, ReentrantLockHandle};
use crate::rwlock::{PendingRead, PendingWrite, RwReadHandle, RwWriteHandle};
use crate::scan::Scan;
use crate::semantic::{PendingSemantic, PredicateV};
use crate::sessions::{HbResult, SessionBook};
use crate::single::{DescribeCalls, Farewell, PendingLock, RedisLockHandle, RedisLockManager,
    fence_key};
use crate::span::Span;
use crate::text::decimal;
use crate::watch_hub::LockEvent;

verus! {

/// A lease is the one asked for, between ten milliseconds and a minute; four
/// seconds where none is asked for.
pub open spec fn demo_lease(asked: Option<u64>, ms: int) -> bool {
    &&& 10 <= ms <= 60_000
    &&& asked is None ==> ms == 4_000
    &&& asked matches Some(n) ==> (if n < 10 {
        ms == 10
    } else if n > 60_000 {
        ms == 60_000
    } else {
        ms == n
    })
}

/// Leases are kept within what the demo allows.
pub proof fn leases_are_clamped(asked: Option<u64>, r: Span)
    requires
        call_ensures(clamp_ttl, (asked,), r),
    ensures
        r@ % 1_000_000 == 0,
        demo_lease(asked, r@ as int / 1_000_000),
{
}

/// A wait is the one asked for, up to half a minute, or the default.
pub proof fn waits_are_capped(asked: Option<u64>, fallback: u64, r: Span)
    requires
        fallback <= 30_000,
        call_ensures(clamp_wait, (asked, fallback), r),
    ensures
        r@ <= 30_000_000_000,
        asked is None ==> r@ == fallback * 1_000_000,
        asked matches Some(n) ==> (if n <= 30_000 {
            r@ == n * 1_000_000
        } else {
            r@ == 30_000_000_000
        }),
{
}

/// Failures are answered by their kind: a bad request, a store that failed, or
/// the server's own fault.
pub proof fn failures_are_answered_by_kind(e: Error, said: String, r: ApiError)
    requires
        call_ensures(Error::message, (&e,), said),
        call_ensures(ApiError::from_error, (&e,), r),
    ensures
        r.message@ == said@,
        r.status == 400 <==> e is InvalidConfig,
        r.status == 502 <==> e is Backend,
        r.status == 400 || r.status == 502 || r.status == 500,
{
}

/// Policies are known by their names, in capitals or not.
pub proof fn policies_are_known_by_name(
    s: &str,
    lower: String,
    r: Result<SafetyPolicy, ApiError>,
)
    requires
        call_ensures(crate::text::ascii_lower, (s,), lower),
        call_ensures(parse_safety_policy, (s,), r),
    ensures
        lower@ == "cowardly"@ ==> r == Ok::<SafetyPolicy, ApiError>(SafetyPolicy::Cowardly),
        lower@ == "balanced"@ ==> r == Ok::<SafetyPolicy, ApiError>(SafetyPolicy::Balanced),
        lower@ == "aggressive"@ ==> r == Ok::<SafetyPolicy, ApiError>(SafetyPolicy::Aggressive),
        r is Ok ==> lower@ == "cowardly"@ || lower@ == "balanced"@ || lower@ == "aggressive"@,
        r matches Err(e) ==> e.status == 400,
{
    reveal_strlit("cowardly");
    reveal_strlit("balanced");
    reveal_strlit("aggressive");
    assert("cowardly"@[0] != "balanced"@[0]);
    assert("cowardly"@.len() != "aggressive"@.len());
    assert("balanced"@.len() != "aggressive"@.len());
}

/// No two grants are kept under one name: the name says the key and the fence.
pub proof fn names_say_key_and_fence(a: &str, f: u64, b: &str, g: u64, x: String, y: String)
    requires
        call_ensures(rw_map_key, (a, f), x),
        call_ensures(rw_map_key, (b, g), y),
        x@ == y@,
    ensures
        a@ == b@ && f == g,
{
    reveal_strlit("|");
    decimals_read_back(f as nat);
    decimals_read_back(g as nat);
    let df = decimal(f as nat);
    let dg = decimal(g as nat);
    let n = x@.len() as int;
    assert(x@[n - 1 - df.len()] == '|');
    assert(y@[n - 1 - dg.len()] == '|');
    if df.len() < dg.len() {
        assert(y@[n - 1 - df.len()] == dg[dg.len() - 1 - df.len()]);
    }
    if dg.len() < df.len() {
        assert(x@[n - 1 - dg.len()] == df[df.len() - 1 - dg.len()]);
    }
    assert(df =~= x@.subrange(n - df.len(), n));
    assert(dg =~= y@.subrange(n - dg.len(), n));
    assert(a@ =~= x@.subrange(0, n - 1 - df.len()));
    assert(b@ =~= y@.subrange(0, n - 1 - dg.len()));
}

/// An acquisition asks for its key under the clamped lease, renewed only where
/// that is asked for; an empty key and an unknown policy are refused.
pub proof fn acquisitions_ask_for_their_key(
    d: DemoState,
    req: AcquireRequest,
    policy: &str,
    parsed: Result<SafetyPolicy, ApiError>,
    options: Result<LockOptions, ApiError>,
    r: Result<PendingLock, ApiError>,
)
    requires
        req.safety_policy is Some ==> policy@ == req.safety_policy->0@,
        call_ensures(parse_safety_policy, (policy,), parsed),
        call_ensures(DemoState::acquire_options, (&req,), options),
        call_ensures(DemoState::acquire, (&d, &req), r),
    ensures
        r is Ok <==> req.key@.len() > 0 && (req.safety_policy is None || parsed is Ok),
        options is Ok <==> r is Ok,
        options matches Ok(o) ==> o.ttl is Some && demo_lease(
            req.ttl_ms,
            o.ttl->0@ as int / 1_000_000,
        ) && o.watchdog == Some(req.watchdog == Some(true)) && o.safety_policy == (
        if req.safety_policy is Some {
            parsed->Ok_0
        } else {
            SafetyPolicy::Balanced
        }),
        r matches Ok(p) ==> p.key@ == req.key@ && demo_lease(
            req.ttl_ms,
            p.ttl@ as int / 1_000_000,
        ) && p.watchdog == (req.watchdog == Some(true)),
        r matches Err(e) ==> e.status == 400,
{
}

/// A grant is handed to the client, and bound to its session where it names one;
/// under an unknown session it is undone.
pub proof fn grants_are_handed_out(
    d: &mut DemoState,
    req: AcquireRequest,
    h: RedisLockHandle,
    now: u128,
    r: AcquireEnd,
)
    requires
        !h.released,
        h.ttl@ / 1_000_000 <= u64::MAX,
        call_ensures(
            DemoState::acquired,
            (d, &req, Ok::<RedisLockHandle, Error>(h), now),
            r,
        ),
    ensures
        r.answer is Err <==> req.session_token is Some && !old(d).sessions@.dom().contains(
            req.session_token->0@,
        ),
        r.answer is Err <==> r.undo is Some,
        r.answer matches Err(e) ==> e.status == 404 && r.observed is None && final(d).sessions@
            == old(d).sessions@,
        r.undo matches Some(f) ==> parts(f, h.key@, h.owner.token_text()),
        r.answer matches Ok(o) ==> (o matches LockOutcome::Granted { key, token, fence, ttl_ms }
            && key@ == req.key@ && token@ == h.owner.token_text() && fence == h.fence@ && ttl_ms
            == h.ttl@ / 1_000_000),
        r.answer is Ok && req.session_token is Some ==> final(d).sessions@[req.session_token->0@].locks == old(d).sessions@[req.session_token->0@].locks.push((req.key@, h.owner.token_text())),
        r.answer is Ok && req.session_token is None ==> final(d).sessions@ == old(d).sessions@,
        final(d).live == old(d).live && final(d).manager == old(d).manager,
        r.answer is Ok ==> r.observed == Some(Observation { ok: true, denied: false }),
{
}

/// Contention is an answer, other failures are errors; neither changes anything.
pub proof fn denials_are_answered(
    d: &mut DemoState,
    req: AcquireRequest,
    e: Error,
    now: u128,
    r: AcquireEnd,
)
    requires
        call_ensures(
            DemoState::acquired,
            (d, &req, Err::<RedisLockHandle, Error>(e), now),
            r,
        ),
    ensures
        r.answer is Ok <==> e is Held,
        r.answer matches Ok(o) ==> (o matches LockOutcome::Held { key } && key@ == req.key@),
        r.answer matches Err(a) ==> (a.status == 400 <==> e is InvalidConfig) && (a.status == 502
            <==> e is Backend),
        r.undo is None,
        r.observed == Some(Observation { ok: e is Held, denied: e is Held }),
        final(d).sessions@ == old(d).sessions@ && final(d).live == old(d).live,
{
}

/// Releases, renewals and forced unlocks go by the key and the token of the
/// request.
pub proof fn releases_go_by_key_and_token(
    d: DemoState,
    req: ReleaseRequest,
    f: Farewell,
    ext: ExtendRequest,
    x: Result<Invocation, ApiError>,
    force: ForceUnlockRequest,
    c: Command,
)
    requires
        call_ensures(DemoState::release, (&d, &req), f),
        call_ensures(DemoState::extend, (&d, &ext), x),
        call_ensures(DemoState::force_unlock, (&d, &force), c),
    ensures
        parts(f, req.key@, req.token@),
        x is Ok,
        x->Ok_0@.program == ProgramV::Known(Script::Extend) && x->Ok_0@.keys =~= seq![
            ext.key@,
            fence_key(ext.key@),
        ] && x->Ok_0@.args.len() == 3 && x->Ok_0@.args[0] == ArgV::Text(ext.token@),
        x->Ok_0@.args[1] matches ArgV::Int(ms) && demo_lease(Some(ext.ttl_ms), ms as int),
        c@.name == "DEL"@ && c@.args =~= seq![ArgV::Text(force.key@)],
{
}

/// They are answered by what the store did.
pub proof fn releases_are_answered_by_the_store(
    d: DemoState,
    reply: Result<i64, String>,
    unlocked: (Result<UnlockOutcome, ApiError>, Option<Observation>),
    extended: Result<ExtendOutcome, ApiError>,
    forced: Result<ForceUnlockResponse, ApiError>,
)
    requires
        call_ensures(DemoState::released, (&d, reply), unlocked),
        call_ensures(DemoState::extended, (&d, reply), extended),
        call_ensures(DemoState::force_unlocked, (&d, reply), forced),
    ensures
        unlocked.0 == Ok::<UnlockOutcome, ApiError>(UnlockOutcome::Released) <==> reply == Ok::<
            i64,
            String,
        >(1),
        extended == Ok::<ExtendOutcome, ApiError>(ExtendOutcome::Extended) <==> reply == Ok::<
            i64,
            String,
        >(1),
        unlocked.0 is Err <==> reply is Err,
        extended is Err <==> reply is Err,
        forced is Err <==> reply is Err,
        forced matches Ok(f) ==> f.released == (reply->Ok_0 > 0),
        reply is Err ==> unlocked.0->Err_0.status == 502 && extended->Err_0.status == 502
            && forced->Err_0.status == 502,
{
}

/// Listing takes the prefix, or all keys; what is listed is what was found.
pub proof fn listings_show_what_was_found(
    d: DemoState,
    q: ListQuery,
    scan: Scan,
    found: Result<Vec<(String, u64)>, Error>,
    r: Result<ListLocksResponse, ApiError>,
    told: Result<(bool, u64, u64), Error>,
    shown: Result<DescribeResponse, ApiError>,
)
    requires
        call_ensures(DemoState::list_locks, (&d, &q), scan),
        call_ensures(DemoState::listed, (&d, &q, found), r),
        call_ensures(DemoState::described, (&d, told), shown),
    ensures
        q.prefix matches Some(p) ==> scan.prefix@ == p@,
        q.prefix is None ==> scan.prefix@.len() == 0,
        scan.fresh && scan.found@.len() == 0,
        r is Ok <==> found is Ok,
        r matches Ok(l) ==> l.prefix@ == scan.prefix@ && l.locks@.len() == found->Ok_0@.len()
            && forall|i: int|
            0 <= i < l.locks@.len() ==> (#[trigger] l.locks@[i]).key@ == found->Ok_0@[i].0@
                && l.locks@[i].ttl_ms == found->Ok_0@[i].1,
        shown is Ok <==> told is Ok,
        shown matches Ok(s) ==> told == Ok::<(bool, u64, u64), Error>(
            (s.held, s.version, s.ttl_ms),
        ),
{
}

/// A reentrant acquisition enters for the owner that it names, if that is one.
pub proof fn reentrant_acquisitions_enter_for_their_owner(
    d: DemoState,
    req: ReentrantAcquireRequest,
    id: &str,
    owner: Option<OwnerId>,
    r: Result<PendingReentrant, ApiError>,
)
    requires
        req.owner_id is Some ==> id@ == req.owner_id->0@,
        call_ensures(OwnerId::parse, (id,), owner),
        call_ensures(DemoState::reentrant_acquire, (&d, &req), r),
    ensures
        r is Ok <==> req.owner_id is None || owner is Some,
        r matches Ok(p) ==> p.key@ == req.key@ && demo_lease(
            req.ttl_ms,
            p.ttl@ as int / 1_000_000,
        ) && (req.owner_id is Some ==> p.owner == owner->0),
        r matches Err(e) ==> e.status == 400,
{
}

/// Accesses and fair locks are asked for under the clamped lease.
pub proof fn accesses_are_asked_for(
    d: DemoState,
    req: RwAcquireRequest,
    r: Result<PendingRead, ApiError>,
    w: Result<PendingWrite, ApiError>,
    f: Result<PendingFair, ApiError>,
)
    requires
        call_ensures(DemoState::rw_read, (&d, &req), r),
        call_ensures(DemoState::rw_write, (&d, &req), w),
        call_ensures(DemoState::fair_lock, (&d, &req), f),
    ensures
        r is Ok && w is Ok && f is Ok,
        r->Ok_0.key@ == req.key@ && w->Ok_0.key@ == req.key@ && f->Ok_0.key@ == req.key@,
        demo_lease(req.ttl_ms, r->Ok_0.ttl@ as int / 1_000_000),
        demo_lease(req.ttl_ms, w->Ok_0.ttl@ as int / 1_000_000),
        demo_lease(req.ttl_ms, f->Ok_0.ttl@ as int / 1_000_000),
{
}

/// A reader's slot that was kept under a key and a fence is the one that is
/// given back under them.
pub proof fn readers_give_back_what_they_took(
    d: &mut DemoState,
    took: RwAcquireRequest,
    h: RwReadHandle,
    a: (Result<RwOutcome, ApiError>, Option<Invocation>),
    later: &mut DemoState,
    req: RwReleaseRequest,
    r: Result<RwRelease, ApiError>,
)
    requires
        call_ensures(
            DemoState::rw_read_acquired,
            (d, &took, Ok::<RwReadHandle, Error>(h)),
            a,
        ),
        old(later).live.rw_read@ == final(d).live.rw_read@,
        req.key@ == took.key@,
        req.fence == h.fence@,
        req.mode@ == "read"@,
        h.ttl@ / 1_000_000 <= u64::MAX,
        call_ensures(DemoState::rw_release, (later, &req), r),
    ensures
        a.0 == Ok::<RwOutcome, ApiError>(RwOutcome::Acquired { fence: h.fence@ }),
        r matches Ok(RwRelease::Read(g, calls)) && g.key == h.key && g.owner == h.owner && g.fence
            == h.fence && g.gone && (calls is Some <==> !h.gone) && (calls matches Some(c)
            ==> keeps_counter(c, h.key@, lease_ms(h.ttl)) && touches(
            c.lock,
            Script::RwReadRelease,
            h.key@,
            h.owner.token_text(),
            Some(lease_ms(h.ttl)),
        )),
        final(later).live.rw_write@ == old(later).live.rw_write@,
{
    reveal_strlit("read");
}

/// A writer's slot that was kept under a key and a fence is the one that is
/// given back under them; a mode that is neither gives nothing back.
pub proof fn writers_give_back_what_they_took(
    d: &mut DemoState,
    took: RwAcquireRequest,
    h: RwWriteHandle,
    a: (Result<RwOutcome, ApiError>, Option<Invocation>),
    later: &mut DemoState,
    req: RwReleaseRequest,
    r: Result<RwRelease, ApiError>,
)
    requires
        call_ensures(
            DemoState::rw_write_acquired,
            (d, &took, Ok::<RwWriteHandle, Error>(h)),
            a,
        ),
        old(later).live.rw_write@ == final(d).live.rw_write@,
        req.key@ == took.key@,
        req.fence == h.fence@,
        call_ensures(DemoState::rw_release, (later, &req), r),
    ensures
        a.0 == Ok::<RwOutcome, ApiError>(RwOutcome::Acquired { fence: h.fence@ }),
        req.mode@ == "write"@ ==> (r matches Ok(RwRelease::Write(g, call)) && g.key == h.key
            && g.owner == h.owner && g.fence == h.fence && g.gone && (call is Some <==> !h.gone)
            && (call matches Some(i) ==> touches(
            i,
            Script::RwWriteRelease,
            h.key@,
            h.owner.token_text(),
            None,
        ))),
        req.mode@ != "write"@ && req.mode@ != "read"@ ==> (r matches Err(e) && e.status == 400)
            && final(later).live.rw_write@ == old(later).live.rw_write@ && final(later).live.rw_read@ == old(later).live.rw_read@,
{
    reveal_strlit("read");
    reveal_strlit("write");
    assert("read"@.len() != "write"@.len());
}

/// Accesses that are denied say so where others hold the key, and fail otherwise.
pub proof fn denied_accesses_are_told(
    d: &mut DemoState,
    req: RwAcquireRequest,
    e: Error,
    r: (Result<RwOutcome, ApiError>, Option<Invocation>),
    b: &mut DemoState,
    w: (Result<RwOutcome, ApiError>, Option<Invocation>),
    c: &mut DemoState,
    f: (Result<FairAcquireResponse, ApiError>, Option<LeaseCalls>),
)
    requires
        call_ensures(DemoState::rw_read_acquired, (d, &req, Err::<RwReadHandle, Error>(e)), r),
        call_ensures(DemoState::rw_write_acquired, (b, &req, Err::<RwWriteHandle, Error>(e)), w),
        call_ensures(DemoState::fair_locked, (c, &req, Err::<FairLockHandle, Error>(e)), f),
    ensures
        r.0 == Ok::<RwOutcome, ApiError>(RwOutcome::Held) <==> e is Held,
        w.0 == Ok::<RwOutcome, ApiError>(RwOutcome::Held) <==> e is Held,
        r.0 is Err <==> !(e is Held),
        w.0 is Err <==> !(e is Held),
        f.0 is Err,
        r.1 is None && w.1 is None && f.1 is None,
        final(d).live.rw_read@ == old(d).live.rw_read@ && final(b).live.rw_write@ == old(b).live.rw_write@ && final(c).live.fair@ == old(c).live.fair@,
{
}

/// Reentrant holds are kept under their key and owner, one upon the other.
pub proof fn reentrant_holds_are_kept_by_owner(
    d: &mut DemoState,
    took: ReentrantAcquireRequest,
    h: ReentrantLockHandle,
    a: Result<ReentrantAcquireResponse, ApiError>,
    later: &mut DemoState,
    req: ReentrantReleaseRequest,
    r: Option<HoldRelease>,
)
    requires
        call_ensures(
            DemoState::reentrant_acquired,
            (d, &took, Ok::<ReentrantLockHandle, Error>(h)),
            a,
        ),
        old(later).live.reentrant@ == final(d).live.reentrant@,
        req.key@ == took.key@,
        req.owner_id@ == h.owner.token_text(),
        call_ensures(DemoState::reentrant_release, (later, &req), r),
    ensures
        a matches Ok(x) && x.owner_id@ == h.owner.token_text() && x.fence == h.fence@,
        r matches Some(g) && g.handle.key == h.key && g.handle.owner == h.owner && g.handle.fence
            == h.fence && g.handle.gone && (g.all <==> req.all == Some(true)) && (g.call is Some
            <==> !h.gone),
        r matches Some(g) ==> (g.call is Some && g.all ==> touches(
            g.call->0,
            Script::ReentrantReleaseAll,
            h.key@,
            h.owner.token_text(),
            None,
        )),
        r matches Some(g) ==> (g.call is Some && !g.all ==> touches(
            g.call->0,
            Script::ReentrantRelease,
            h.key@,
            h.owner.token_text(),
            Some(0u64),
        )),
        ({
            let name = req.key@ + "|"@ + req.owner_id@;
            let before = holds(old(d).live.reentrant@, name);
            let after = holds(final(later).live.reentrant@, name);
            if req.all == Some(true) {
                after.len() == 0
            } else {
                after =~= before
            }
        }),
{
    let name = req.key@ + "|"@ + req.owner_id@;
    let between = holds(final(d).live.reentrant@, name);
    assert(between == holds(old(d).live.reentrant@, name).push(h));
    assert(holds(final(later).live.reentrant@, name) == if req.all == Some(true) {
        seq![]
    } else {
        between.drop_last()
    });
}

/// A permit that was kept under a key and a fence is the one that is given back
/// under them; a full semaphore is an answer, other failures are errors.
pub proof fn permits_are_given_back_as_they_were_kept(
    d: &mut DemoState,
    took: SemaphoreAcquireRequest,
    attempt: Result<FencingToken, Error>,
    a: (Result<SemaphoreOutcome, ApiError>, Option<SemaphorePermit>),
    later: &mut DemoState,
    req: FenceReleaseRequest,
    r: Option<SemaphorePermit>,
    options: LockOptions,
)
    requires
        call_ensures(DemoState::semaphore_acquired, (d, &took, attempt), a),
        old(later).live.permits@ == final(d).live.permits@,
        attempt is Ok ==> req.key@ == took.key@ && req.fence == attempt->Ok_0@,
        call_ensures(DemoState::semaphore_release, (later, &req), r),
        call_ensures(DemoState::semaphore_acquire, (&*d, &took), options),
    ensures
        attempt matches Ok(f) ==> a.0 == Ok::<SemaphoreOutcome, ApiError>(
            SemaphoreOutcome::Acquired { fence: f@ },
        ) && (r matches Some(p) && p.key@ == took.key@ && p.fence == f),
        attempt matches Err(e) ==> (a.0 == Ok::<SemaphoreOutcome, ApiError>(SemaphoreOutcome::Full)
            <==> e is Held) && (a.0 is Err <==> !(e is Held)) && final(d).live.permits@ == old(
            d).live.permits@,
        options.ttl is Some && demo_lease(took.ttl_ms, options.ttl->0@ as int / 1_000_000),
        options.watchdog is None,
{
}

/// What was not found is not released; what was is, unless the store fails.
pub proof fn given_back_permits_and_holds_are_told(
    d: DemoState,
    done: Option<Result<(), Error>>,
    p: Result<ReleasedResponse, ApiError>,
    rel: HoldRelease,
    reply: Option<Result<i64, String>>,
    h: Result<ReleasedResponse, ApiError>,
    absent: Result<ReleasedResponse, ApiError>,
)
    requires
        call_ensures(DemoState::semaphore_released, (&d, done), p),
        call_ensures(DemoState::reentrant_released, (&d, Some(&rel), reply), h),
        call_ensures(DemoState::reentrant_released, (&d, None::<&HoldRelease>, reply), absent),
    ensures
        p is Err <==> done is Some && done->0 is Err,
        p matches Ok(x) ==> (x.released <==> done is Some),
        h is Err <==> reply is Some && (reply->0 is Err || reply->0->Ok_0 < 0),
        h matches Ok(x) ==> x.released,
        absent == Ok::<ReleasedResponse, ApiError>(ReleasedResponse { released: false }),
{
}

/// A fair lock that was kept under a key and a fence is the one that is released
/// under them.
pub proof fn fair_locks_are_released_as_they_were_kept(
    d: &mut DemoState,
    took: RwAcquireRequest,
    h: FairLockHandle,
    a: (Result<FairAcquireResponse, ApiError>, Option<LeaseCalls>),
    later: &mut DemoState,
    req: FenceReleaseRequest,
    r: Option<(FairLockHandle, Option<LeaseCalls>)>,
)
    requires
        call_ensures(DemoState::fair_locked, (d, &took, Ok::<FairLockHandle, Error>(h)), a),
        old(later).live.fair@ == final(d).live.fair@,
        req.key@ == took.key@,
        req.fence == h.fence@,
        call_ensures(DemoState::fair_release, (later, &req), r),
    ensures
        a.0 matches Ok(f) && f.owner@ == h.owner.token_text() && f.fence == h.fence@,
        r matches Some((g, calls)) && g.key == h.key && g.owner == h.owner && g.fence == h.fence
            && g.gone && (calls is Some <==> !h.gone) && (calls matches Some(c) ==> keeps_counter(
            c,
            h.key@,
            30_000,
        ) && c.lock@.program == ProgramV::Known(Script::FairRelease) && c.lock@.args[0]
            == ArgV::Text(h.owner.token_text())),
{
}

/// Releases by handle tell whether a handle was found, and fail as its lock does.
pub proof fn releases_by_handle_are_told(
    d: DemoState,
    f: FairLockHandle,
    reply: Result<i64, String>,
    absent: Result<ReleasedResponse, ApiError>,
    gone: Result<ReleasedResponse, ApiError>,
    r: Result<ReleasedResponse, ApiError>,
    rw: RwRelease,
    w: Result<ReleasedResponse, ApiError>,
)
    requires
        call_ensures(DemoState::fair_released, (&d, None::<&FairLockHandle>, Some(reply)), absent),
        call_ensures(DemoState::fair_released, (&d, Some(&f), None::<Result<i64, String>>), gone),
        call_ensures(DemoState::fair_released, (&d, Some(&f), Some(reply)), r),
        call_ensures(DemoState::rw_released, (&d, &rw, Some(reply)), w),
    ensures
        absent == Ok::<ReleasedResponse, ApiError>(ReleasedResponse { released: false }),
        gone == Ok::<ReleasedResponse, ApiError>(ReleasedResponse { released: true }),
        r is Ok <==> reply is Ok && reply->Ok_0 >= 0,
        r matches Ok(x) ==> x.released,
        rw is Absent ==> w == Ok::<ReleasedResponse, ApiError>(
            ReleasedResponse { released: false },
        ),
        !(rw is Absent) ==> (w is Ok <==> reply is Ok && reply->Ok_0 >= 0) && (w matches Ok(x)
            ==> x.released),
{
}

/// A multi-lock is asked for with every key once and within the capped wait; no
/// keys, or a key twice, are refused.
pub proof fn multi_requests_name_keys_once(
    d: DemoState,
    req: MultiAcquireRequest,
    now: u128,
    r: Result<MultiAcquire, ApiError>,
)
    requires
        now <= u128::MAX - 30_000_000_000,
        call_ensures(DemoState::multi_lock, (&d, &req, now), r),
    ensures
        r is Ok <==> req.keys@.len() > 0 && texts(req.keys@).no_duplicates(),
        r matches Ok(m) ==> texts(m.sorted@).to_multiset() == texts(req.keys@).to_multiset()
            && m.taken@.len() == 0 && m.options.ttl is Some && demo_lease(
            req.ttl_ms,
            m.options.ttl->0@ as int / 1_000_000,
        ) && m.options.watchdog is None && !m.waiting.clipped && m.waiting.deadline is Some
            && m.waiting.deadline->0 == now + (if req.wait_ms is None {
            2_000
        } else if req.wait_ms->0 <= 30_000 {
            req.wait_ms->0 as int
        } else {
            30_000
        }) * 1_000_000,
        r matches Err(e) ==> e.status == 400,
{
}

/// A multi-lock is kept under its identity and released under it, once.
pub proof fn multi_locks_are_kept_by_identity(
    d: &mut DemoState,
    id: OwnerId,
    h: MultiLockHandle,
    a: Result<MultiOutcome, ApiError>,
    later: &mut DemoState,
    req: MultiReleaseRequest,
    r: Option<(MultiLockHandle, Vec<MultiRelease>)>,
)
    requires
        call_ensures(DemoState::multi_locked_as, (d, id, Ok::<MultiLockHandle, Error>(h)), a),
        old(later).live.multi@ == final(d).live.multi@,
        req.multi_id@ == id.token_text(),
        call_ensures(DemoState::multi_release, (later, &req), r),
    ensures
        a matches Ok(MultiOutcome::Acquired { multi_id, locks }) && multi_id@ == id.token_text()
            && locks@.len() == h.handles@.len() && forall|i: int|
            0 <= i < locks@.len() ==> (#[trigger] locks@[i]).key@ == h.handles@[i].key@
                && locks@[i].fence == h.handles@[i].fence@,
        r matches Some((g, sent)) && g.handles@.len() == h.handles@.len(),
        !final(later).live.multi@.dom().contains(req.multi_id@),
{
}

/// A multi-lock is released where every lock of it was; the answer to an unknown
/// identity is that nothing was.
pub proof fn multi_releases_are_told(
    d: DemoState,
    h: MultiLockHandle,
    sent: Vec<MultiRelease>,
    replies: Vec<Result<i64, String>>,
    all: Result<(), Error>,
    r: Result<ReleasedResponse, ApiError>,
    absent: Result<ReleasedResponse, ApiError>,
)
    requires
        sent@.len() == replies@.len(),
        forall|j: int| 0 <= j < sent@.len() ==> (#[trigger] sent@[j]).index < h.handles@.len(),
        call_ensures(MultiLockHandle::released_all, (&h, &sent, replies), all),
        call_ensures(DemoState::multi_released, (&d, Some(&h), &sent, replies), r),
        call_ensures(
            DemoState::multi_released,
            (&d, None::<&MultiLockHandle>, &sent, replies),
            absent,
        ),
    ensures
        r is Ok <==> all is Ok,
        r matches Ok(x) ==> x.released,
        absent == Ok::<ReleasedResponse, ApiError>(ReleasedResponse { released: false }),
{
}

/// A multi-lock that ran out of time is an answer; other failures are errors.
pub proof fn failed_multi_locks_are_told(d: &mut DemoState, e: Error, r: Result<MultiOutcome, ApiError>)
    requires
        call_ensures(DemoState::multi_locked, (d, Err::<MultiLockHandle, Error>(e)), r),
    ensures
        r is Ok <==> e is Timeout,
        r matches Ok(o) ==> o is Timeout,
        final(d).live.multi@ == old(d).live.multi@,
{
}

/// A latch is created with its count, adopted with a count of one, and waited
/// for within the capped wait.
pub proof fn latches_are_created_and_waited_for(
    d: DemoState,
    req: LatchCreateRequest,
    created: Result<Invocation, ApiError>,
    key: &str,
    adopted: Result<Invocation, ApiError>,
    l: RedisCountDownLatch,
    w: LatchWaitRequest,
    now: u128,
    wait: LatchWait,
    waited: Result<(), Error>,
    zero: LatchWaitResponse,
)
    requires
        now <= u128::MAX - 30_000_000_000,
        call_ensures(DemoState::latch_create, (&d, &req), created),
        call_ensures(DemoState::latch_adopt, (&d, key), adopted),
        call_ensures(DemoState::latch_wait, (&d, &w, &l, now), wait),
        call_ensures(DemoState::latch_waited, (&d, waited), zero),
    ensures
        created is Ok <==> req.count > 0,
        created matches Ok(i) ==> i@.program == ProgramV::Known(Script::LatchInit) && i@.keys
            =~= seq![req.key@] && i@.args =~= seq![ArgV::Text(decimal(req.count as nat))],
        created matches Err(e) ==> e.status == 400,
        adopted matches Ok(i) && i@.keys =~= seq![key@] && i@.args =~= seq![
            ArgV::Text(decimal(1)),
        ],
        wait.waiting.key@ == l.key@ && wait.waiting.deadline is Some && wait.waiting.deadline->0
            == now + (if w.timeout_ms is None {
            5_000
        } else if w.timeout_ms->0 <= 30_000 {
            w.timeout_ms->0 as int
        } else {
            30_000
        }) * 1_000_000,
        zero.zero <==> waited is Ok,
{
}

/// What remains of a latch is told; a latch that is gone is an error.
pub proof fn latch_counts_are_told(
    d: DemoState,
    l: RedisCountDownLatch,
    reply: Result<i64, String>,
    r: Result<LatchCountResponse, ApiError>,
    down: Invocation,
    get: Invocation,
)
    requires
        call_ensures(DemoState::latch_counted, (&d, &l, reply), r),
        call_ensures(DemoState::latch_count_down, (&d, &l), down),
        call_ensures(DemoState::latch_count, (&d, &l), get),
    ensures
        r is Ok <==> reply is Ok && reply->Ok_0 >= 0,
        r matches Ok(c) ==> c.count == reply->Ok_0,
        r matches Err(e) ==> (e.status == 500 <==> reply is Ok) && (e.status == 502 <==> reply is Err),
        down@.program == ProgramV::Known(Script::LatchCountDown) && down@.keys =~= seq![l.key@],
        get@.program == ProgramV::Known(Script::LatchGet) && get@.keys =~= seq![l.key@],
{
}

/// Each kind of predicate is what its word says; a number is needed where one is
/// compared with, and any that a number prints as will do.
pub proof fn predicates_are_what_their_words_say(p: PredicateSpec)
    ensures
        p.op@ == "eq"@ ==> compiled(p) is Ok && compiled(p)->Ok_0 == (PredicateV::Equals {
            field: p.field@,
            value: if p.value is Some {
                p.value->0@
            } else {
                seq![]
            },
        }),
        p.op@ == "gt"@ ==> (compiled(p) is Ok <==> p.number is Some && (signed_decimal(
            p.number->0@,
        ) || p.number->0@ == "inf"@ || p.number->0@ == "-inf"@ || p.number->0@ == "NaN"@)),
        p.op@ == "gt"@ && compiled(p) is Ok ==> compiled(p)->Ok_0 == (PredicateV::FieldGt {
            field: p.field@,
            value: p.number->0@,
        }),
        p.op@ == "absent"@ ==> compiled(p) is Ok && compiled(p)->Ok_0 == (PredicateV::Absent {
            field: p.field@,
        }),
        p.op@ != "eq"@ && p.op@ != "gt"@ && p.op@ != "absent"@ ==> compiled(p) is Err,
        compiled(p) is Err ==> compiled(p)->Err_0.status == 400,
{
    reveal_strlit("eq");
    reveal_strlit("gt");
    reveal_strlit("absent");
    assert("eq"@[0] != "gt"@[0]);
    assert("absent"@.len() == 6 && "eq"@.len() == 2 && "gt"@.len() == 2);
    if p.number is Some {
        crate::promises::guards::lemma_signed(p.number->0@);
    }
}

proof fn lemma_compiled_all(ps: Seq<PredicateSpec>)
    ensures
        compiled_all(ps) is Ok <==> forall|i: int|
            0 <= i < ps.len() ==> compiled(#[trigger] ps[i]) is Ok,
        compiled_all(ps) matches Ok(out) ==> out.len() == ps.len() && forall|i: int|
            0 <= i < ps.len() ==> out[i] == compiled(#[trigger] ps[i])->Ok_0,
        compiled_all(ps) matches Err(e) ==> exists|i: int|
            0 <= i < ps.len() && compiled(#[trigger] ps[i]) is Err && compiled(ps[i])->Err_0 == e
                && forall|j: int| 0 <= j < i ==> compiled(#[trigger] ps[j]) is Ok,
    decreases ps.len(),
{
    if ps.len() > 0 {
        let n = ps.len() - 1;
        let front = ps.drop_last();
        lemma_compiled_all(front);
        assert(ps[n] == ps.last());
        if compiled_all(front) is Ok {
            assert forall|i: int| 0 <= i < n implies compiled(#[trigger] ps[i]) is Ok by {
                assert(front[i] == ps[i]);
            }
            if compiled(ps.last()) is Ok {
                let out = compiled_all(ps)->Ok_0;
                assert forall|i: int| 0 <= i < ps.len() implies out[i] == compiled(
                    #[trigger] ps[i],
                )->Ok_0 by {
                    if i < n {
                        assert(front[i] == ps[i]);
                    }
                }
            }
        } else {
            let e = compiled_all(front)->Err_0;
            let i = choose|i: int|
                0 <= i < front.len() && compiled(#[trigger] front[i]) is Err && compiled(
                    front[i],
                )->Err_0 == e && forall|j: int|
                    0 <= j < i ==> compiled(#[trigger] front[j]) is Ok;
            assert(ps[i] == front[i]);
            assert forall|j: int| 0 <= j < i implies compiled(#[trigger] ps[j]) is Ok by {
                assert(front[j] == ps[j]);
            }
        }
    }
}

/// A semantic acquisition tests every predicate of the request, in order, or is
/// refused for the first that makes no sense.
pub proof fn semantic_requests_keep_every_predicate(
    d: DemoState,
    req: SemanticAcquireRequest,
    r: Result<PendingSemantic, ApiError>,
)
    requires
        call_ensures(DemoState::semantic_acquire, (&d, &req), r),
    ensures
        r is Ok <==> req.predicates@.len() > 0 && forall|i: int|
            0 <= i < req.predicates@.len() ==> compiled(#[trigger] req.predicates@[i]) is Ok,
        r matches Ok(p) ==> p.guard.key@ == req.key@ && !p.guard.watchdog && demo_lease(
            req.ttl_ms,
            p.guard.ttl@ as int / 1_000_000,
        ) && p.guard.preds@.len() == req.predicates@.len() && forall|i: int|
            0 <= i < req.predicates@.len() ==> p.guard.preds@[i]@ == compiled(
                #[trigger] req.predicates@[i],
            )->Ok_0,
        r matches Err(e) ==> e.status == 400,
{
    lemma_compiled_all(req.predicates@);
    if let Ok(p) = r {
        let ps = crate::semantic::predicates(p.guard.preds@);
        assert(ps.len() == p.guard.preds@.len());
        assert forall|i: int| 0 <= i < req.predicates@.len() implies p.guard.preds@[i]@ == compiled(
            #[trigger] req.predicates@[i],
        )->Ok_0 by {
            assert(ps[i] == p.guard.preds@[i]@);
        }
    } else if req.predicates@.len() > 0 {
        let e = compiled_all(req.predicates@)->Err_0;
        let i = choose|i: int|
            0 <= i < req.predicates@.len() && compiled(#[trigger] req.predicates@[i]) is Err
                && compiled(req.predicates@[i])->Err_0 == e;
        predicates_are_what_their_words_say(req.predicates@[i]);
    }
}

/// A semantic denial is told apart by whether the key is held.
pub proof fn semantic_denials_are_told_apart(
    d: DemoState,
    attempt: Result<RedisLockHandle, Error>,
    r: (SemanticStep, Observation),
    told: Result<(bool, u64, u64), Error>,
    s: Result<SemanticOutcome, ApiError>,
)
    requires
        call_ensures(DemoState::semantic_acquired, (&d, attempt), r),
        call_ensures(DemoState::semantic_denied, (&d, told), s),
    ensures
        r.0 is Describe <==> attempt is Err && attempt->Err_0 is Held,
        attempt matches Ok(h) ==> (r.0 matches SemanticStep::Answer(
            Ok(SemanticOutcome::Granted { token, fence }),
        ) && token@ == h.owner.token_text() && fence == h.fence@),
        attempt is Err && !(attempt->Err_0 is Held) ==> (r.0 matches SemanticStep::Answer(Err(_))),
        r.1 == (Observation {
            ok: attempt is Ok || attempt->Err_0 is Held,
            denied: attempt is Err && attempt->Err_0 is Held,
        }),
        s is Ok <==> told is Ok,
        told matches Ok((held, _, _)) ==> (s->Ok_0 is Held <==> held) && (s->Ok_0
            is PredicatesFailed <==> !held),
{
}

/// Protected data is written and read under the key and field of the request.
pub proof fn protected_data_goes_by_key_and_field(
    d: DemoState,
    req: SemanticDataRequest,
    set: Command,
    key: &str,
    get: Command,
)
    requires
        call_ensures(DemoState::semantic_set_data, (&d, &req), set),
        call_ensures(DemoState::semantic_get_data, (&d, key), get),
    ensures
        set@.name == "HSET"@ && set@.args =~= seq![
            ArgV::Text(req.key@),
            ArgV::Text(req.field@),
            ArgV::Text(req.value@),
        ],
        get@.name == "HGETALL"@ && get@.args =~= seq![ArgV::Text(key@)],
{
}

/// A testament is stored under the clamped lease, by key and token, and told
/// only if the store took it.
pub proof fn testaments_are_stored_by_key_and_token(
    d: DemoState,
    req: TestamentSetRequest,
    i: Invocation,
    reply: Result<i64, String>,
    r: Result<TestamentSetResponse, ApiError>,
    key: &str,
    read: Invocation,
)
    requires
        call_ensures(DemoState::testament_set, (&d, &req), i),
        call_ensures(DemoState::testament_stored, (&d, &req, reply), r),
        call_ensures(DemoState::testament_read, (&d, key), read),
    ensures
        i@.program == ProgramV::Known(Script::WillSet) && i@.keys =~= seq![
            req.key@,
            req.key@ + ":will"@,
        ] && i@.args.len() == 3 && i@.args[0] == ArgV::Text(req.token@),
        i@.args[1] == ArgV::Bytes(vstd::utf8::encode_utf8(req.payload@)),
        i@.args[2] matches ArgV::Int(ms) && demo_lease(req.ttl_ms, ms as int),
        r is Ok <==> reply == Ok::<i64, String>(1),
        r matches Ok(s) ==> s.stored,
        read@.program == ProgramV::Known(Script::WillGet) && read@.keys =~= seq![
            key@,
            key@ + ":will"@,
        ],
{
}

/// A session gets the lease that it asks for, up to a minute, or ten seconds
/// where it asks for none.
pub proof fn demo_sessions_get_their_lease(
    d: &mut DemoState,
    req: SessionRegisterRequest,
    now: u128,
    r: SessionRegisterResponse,
)
    requires
        call_ensures(DemoState::session_register, (d, req, now), r),
    ensures
        req.ttl_ms is None ==> r.ttl_ms == 10_000,
        req.ttl_ms matches Some(n) ==> r.ttl_ms == (if n <= 60_000 {
            n
        } else {
            60_000
        }),
        final(d).sessions@.dom().contains(r.session_token@),
        ({
            let s = final(d).sessions@[r.session_token@];
            s.client_id == req.client_id@ && s.ttl == r.ttl_ms * 1_000_000 && s.last_seen == now
                && s.locks.len() == 0
        }),
        final(d).live == old(d).live,
{
}

/// Heartbeats and closings of sessions are those of the book.
pub proof fn demo_sessions_live_by_the_book(
    d: &mut DemoState,
    book: &mut SessionBook,
    req: LatchKeyRequest,
    token: &str,
    now: u128,
    r: SessionHeartbeatOutcome,
    hb: HbResult,
    e: &mut DemoState,
    f: Vec<Farewell>,
)
    requires
        token@ == req.key@,
        old(book)@ == old(d).sessions@,
        call_ensures(DemoState::session_heartbeat, (d, &req, now), r),
        call_ensures(SessionBook::heartbeat, (book, token, now), hb),
        call_ensures(DemoState::session_close, (e, &req), f),
    ensures
        r == SessionHeartbeatOutcome::Accepted <==> hb == HbResult::Accepted,
        r == SessionHeartbeatOutcome::RateLimited <==> hb == HbResult::RateLimited,
        r == SessionHeartbeatOutcome::Unknown <==> hb == HbResult::Unknown,
        final(d).sessions@ == final(book)@,
        !final(e).sessions@.dom().contains(req.key@),
        old(e).sessions@.dom().contains(req.key@) ==> f@.len() == old(e).sessions@[req.key@].locks.len() && forall|i: int|
            0 <= i < f@.len() ==> parts(
                #[trigger] f@[i],
                old(e).sessions@[req.key@].locks[i].0,
                old(e).sessions@[req.key@].locks[i].1,
            ),
        !old(e).sessions@.dom().contains(req.key@) ==> f@.len() == 0,
{
    if old(e).sessions@.dom().contains(req.key@) {
        let locks = old(e).sessions@[req.key@].locks;
        assert forall|i: int| 0 <= i < f@.len() implies parts(
            #[trigger] f@[i],
            locks[i].0,
            locks[i].1,
        ) by {
            assert(f@[i].bids(locks[i].0, locks[i].1));
        }
    }
}

/// A new demo keeps nothing.
pub proof fn new_demos_keep_nothing(m: RedisLockManager, d: DemoState, k: Seq<char>)
    requires
        call_ensures(DemoState::new, (m,), d),
    ensures
        d.manager == m,
        !d.sessions@.dom().contains(k) && !d.live.reentrant@.dom().contains(k),
        !d.live.rw_read@.dom().contains(k) && !d.live.rw_write@.dom().contains(k),
        !d.live.permits@.dom().contains(k) && !d.live.fair@.dom().contains(k),
        !d.live.multi@.dom().contains(k),
{
}

/// A description asks whether the key is there, for its counter, and for its
/// lease; a latch that was created is known by its key.
pub proof fn descriptions_ask_three_things(
    d: DemoState,
    key: &str,
    r: DescribeCalls,
    reply: Result<i64, String>,
    l: Result<RedisCountDownLatch, ApiError>,
)
    requires
        call_ensures(DemoState::describe, (&d, key), r),
        call_ensures(DemoState::latch_created, (&d, key, reply), l),
    ensures
        r.held@.name == "EXISTS"@ && r.held@.args =~= seq![ArgV::Text(key@)],
        r.version@.name == "GET"@ && r.version@.args =~= seq![ArgV::Text(fence_key(key@))],
        r.lease@.name == "PTTL"@ && r.lease@.args =~= seq![ArgV::Text(key@)],
        l is Ok <==> reply is Ok,
        l matches Ok(x) ==> x.key@ == key@,
        l matches Err(e) ==> e.status == 502,
{
}

/// Protected data and testaments are told as the store gave them, and a store
/// that failed is told as such.
pub proof fn stored_data_is_told_as_it_was(
    d: DemoState,
    cause: &str,
    unreachable_data: ApiError,
    set: Result<(), String>,
    was_set: Result<(), ApiError>,
    got: Result<Vec<(String, String)>, String>,
    told: Result<SemanticDataResponse, ApiError>,
    left: Seq<char>,
    will: Result<Option<Vec<u8>>, String>,
    read: Result<TestamentReadResponse, ApiError>,
)
    requires
        call_ensures(DemoState::data_unreachable, (&d, cause), unreachable_data),
        call_ensures(DemoState::semantic_data_set, (&d, set), was_set),
        call_ensures(DemoState::semantic_data_got, (&d, got), told),
        call_ensures(DemoState::testament_told, (&d, will), read),
    ensures
        unreachable_data.status == 502,
        was_set is Ok <==> set is Ok,
        told is Ok <==> got is Ok,
        read is Ok <==> will is Ok,
        was_set is Err ==> was_set->Err_0.status == 502,
        told is Err ==> told->Err_0.status == 502,
        read is Err ==> read->Err_0.status == 502,
        told matches Ok(x) ==> x.fields == got->Ok_0,
        read matches Ok(x) ==> (x.payload is None <==> will->Ok_0 is None),
        will is Ok && will->Ok_0 is Some && will->Ok_0->0@ == vstd::utf8::encode_utf8(left) ==> (
        read matches Ok(x) && (x.payload matches Some(p) && p@ == left)),
{
}

/// A closed session tells how many of its locks were freed.
pub proof fn closed_demo_sessions_count_what_was_freed(
    d: DemoState,
    results: Vec<Result<bool, Error>>,
    r: SessionCloseResponse,
)
    requires
        results@.len() <= u32::MAX,
        call_ensures(DemoState::session_closed, (&d, &results), r),
    ensures
        r.released_locks == results@.to_multiset().count(Ok::<bool, Error>(true)),
{
    lemma_freed(results@);
}

/// Events are rendered with their kind and version.
pub proof fn events_are_rendered_in_full(version: u64, a: String, f: String)
    requires
        call_ensures(render_event, (&(LockEvent::Acquired { version }),), a),
        call_ensures(render_event, (&(LockEvent::Freed { version }),), f),
    ensures
        a@ == "{\"event\":\""@ + "acquired"@ + "\",\"version\":"@ + decimal(version as nat) + "}"@,
        f@ == "{\"event\":\""@ + "freed"@ + "\",\"version\":"@ + decimal(version as nat) + "}"@,
{
}

/// Tiers are shown by their names.
pub proof fn tiers_are_shown_by_name(t: Tier, shown: &'static str, name: &'static str)
    requires
        call_ensures(tier_name, (t,), shown),
        call_ensures(Tier::as_str, (t,), name),
    ensures
        shown@ == name@,
{
}

/// What was given back is not given back again.
pub proof fn nothing_is_given_back_twice(
    d: &mut DemoState,
    again: &mut DemoState,
    req: FenceReleaseRequest,
    permit: Option<SemaphorePermit>,
    no_permit: Option<SemaphorePermit>,
    e: &mut DemoState,
    later: &mut DemoState,
    fair: Option<(FairLockHandle, Option<LeaseCalls>)>,
    no_fair: Option<(FairLockHandle, Option<LeaseCalls>)>,
)
    requires
        call_ensures(DemoState::semaphore_release, (d, &req), permit),
        old(again).live.permits@ == final(d).live.permits@,
        call_ensures(DemoState::semaphore_release, (again, &req), no_permit),
        call_ensures(DemoState::fair_release, (e, &req), fair),
        old(later).live.fair@ == final(e).live.fair@,
        call_ensures(DemoState::fair_release, (later, &req), no_fair),
    ensures
        no_permit is None,
        no_fair is None,
        final(d).live.fair == old(d).live.fair && final(d).sessions == old(d).sessions,
        final(e).live.permits == old(e).live.permits && final(e).sessions == old(e).sessions,
{
}

/// A slot is given back once, too.
pub proof fn no_slot_is_given_back_twice(
    d: &mut DemoState,
    later: &mut DemoState,
    req: RwReleaseRequest,
    first: Result<RwRelease, ApiError>,
    second: Result<RwRelease, ApiError>,
)
    requires
        call_ensures(DemoState::rw_release, (d, &req), first),
        old(later).live.rw_read@ == final(d).live.rw_read@,
        old(later).live.rw_write@ == final(d).live.rw_write@,
        call_ensures(DemoState::rw_release, (later, &req), second),
    ensures
        first is Ok ==> (second matches Ok(r) && r is Absent),
        first is Err ==> second is Err,
        final(d).live.fair == old(d).live.fair && final(d).sessions == old(d).sessions,
{
}

/// A handle that another displaces under the same key and fence is let go; the
/// first of its name displaces nothing.
pub proof fn displaced_slots_are_let_go(
    d: &mut DemoState,
    took: RwAcquireRequest,
    h: RwReadHandle,
    a: (Result<RwOutcome, ApiError>, Option<Invocation>),
    later: &mut DemoState,
    g: RwReadHandle,
    b: (Result<RwOutcome, ApiError>, Option<Invocation>),
)
    requires
        call_ensures(
            DemoState::rw_read_acquired,
            (d, &took, Ok::<RwReadHandle, Error>(h)),
            a,
        ),
        old(later).live.rw_read@ == final(d).live.rw_read@,
        g.fence@ == h.fence@,
        call_ensures(
            DemoState::rw_read_acquired,
            (later, &took, Ok::<RwReadHandle, Error>(g)),
            b,
        ),
    ensures
        b.1 is Some <==> !h.gone,
        b.1 matches Some(i) ==> touches(
            i,
            Script::RwReadRelease,
            h.key@,
            h.owner.token_text(),
            Some(0u64),
        ),
        (forall|k: Seq<char>| !old(d).live.rw_read@.dom().contains(k)) ==> a.1 is None,
{
}

/// So it is for writers, fair locks and permits.
pub proof fn displaced_handles_are_let_go(
    d: &mut DemoState,
    took: RwAcquireRequest,
    h: RwWriteHandle,
    a: (Result<RwOutcome, ApiError>, Option<Invocation>),
    d2: &mut DemoState,
    g: RwWriteHandle,
    b: (Result<RwOutcome, ApiError>, Option<Invocation>),
    e: &mut DemoState,
    asked: SemaphoreAcquireRequest,
    f: FencingToken,
    p: (Result<SemaphoreOutcome, ApiError>, Option<SemaphorePermit>),
    e2: &mut DemoState,
    q: (Result<SemaphoreOutcome, ApiError>, Option<SemaphorePermit>),
)
    requires
        call_ensures(
            DemoState::rw_write_acquired,
            (d, &took, Ok::<RwWriteHandle, Error>(h)),
            a,
        ),
        old(d2).live.rw_write@ == final(d).live.rw_write@,
        g.fence@ == h.fence@,
        call_ensures(
            DemoState::rw_write_acquired,
            (d2, &took, Ok::<RwWriteHandle, Error>(g)),
            b,
        ),
        call_ensures(DemoState::semaphore_acquired, (e, &asked, Ok::<FencingToken, Error>(f)), p),
        old(e2).live.permits@ == final(e).live.permits@,
        call_ensures(DemoState::semaphore_acquired, (e2, &asked, Ok::<FencingToken, Error>(f)), q),
    ensures
        b.1 is Some <==> !h.gone,
        b.1 matches Some(i) ==> touches(
            i,
            Script::RwWriteRelease,
            h.key@,
            h.owner.token_text(),
            None,
        ),
        q.1 matches Some(old_permit) && old_permit.key@ == asked.key@ && old_permit.fence == f,
        (forall|k: Seq<char>| !old(e).live.permits@.dom().contains(k)) ==> p.1 is None,
{
}

/// A multi-lock is found under the identity that the client was told.
pub proof fn multi_locks_are_found_under_what_was_told(
    d: &mut DemoState,
    h: MultiLockHandle,
    a: Result<MultiOutcome, ApiError>,
    later: &mut DemoState,
    req: MultiReleaseRequest,
    r: Option<(MultiLockHandle, Vec<MultiRelease>)>,
)
    requires
        call_ensures(DemoState::multi_locked, (d, Ok::<MultiLockHandle, Error>(h)), a),
        old(later).live.multi@ == final(d).live.multi@,
        a matches Ok(MultiOutcome::Acquired { multi_id, locks }) ==> req.multi_id@ == multi_id@,
        call_ensures(DemoState::multi_release, (later, &req), r),
    ensures
        a matches Ok(MultiOutcome::Acquired { multi_id, locks }) && locks@.len()
            == h.handles@.len(),
        r matches Some((g, _)) && g.handles@.len() == h.handles@.len(),
        final(d).sessions == old(d).sessions && final(d).live.fair == old(d).live.fair,
        final(later).sessions == old(later).sessions && final(later).live.fair == old(
            later).live.fair,
{
}

/// A testament that the store did not take was for a lock that is lost, and the
/// client is told so.
pub proof fn refused_testaments_are_told(
    d: DemoState,
    req: TestamentSetRequest,
    n: i64,
    r: Result<TestamentSetResponse, ApiError>,
    l: RedisCountDownLatch,
    m: i64,
    c: Result<LatchCountResponse, ApiError>,
    q: ListQuery,
    scan: Scan,
)
    requires
        n != 1,
        m < 0,
        call_ensures(DemoState::testament_stored, (&d, &req, Ok::<i64, String>(n)), r),
        call_ensures(DemoState::latch_counted, (&d, &l, Ok::<i64, String>(m)), c),
        call_ensures(DemoState::list_locks, (&d, &q), scan),
    ensures
        r matches Err(e) && e.status == 500 && e.message@ == "lock lost: "@ + req.key@
            + " (fence "@ + decimal(0) + ")"@,
        c matches Err(e) && e.status == 500 && e.message@ == "lock lost: "@ + l.key@ + " (fence "@
            + decimal(0) + ")"@,
        scan.cursor == 0 && scan.batch@.len() == 0 && scan.at == 0,
{
}

} // verus!
