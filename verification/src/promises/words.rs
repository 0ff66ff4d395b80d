//! What failures and refusals say.

use vstd::prelude::*;

use crate::auth::{Acl, Principal, PrincipalConfig};
use crate::command::{Command, Invocation};
use crate::config::RedisConfig;
use crate::demo::{ApiError, DemoState, Observation, SemaphorePermit, parse_safety_policy};
use crate::demo_coordination::compiled;
use crate::demo_handles::RwRelease;
use crate::error::{Error, ErrorV};
use crate::fair::{FairLockHandle, PendingFair};
use crate::fencing::FencingToken;
use crate::latch::RedisCountDownLatch;
use crate::leases::LeaseCalls;
use crate::multi::{MultiAcquire, MultiLockHandle};
use crate::options::{LockOptions, SafetyPolicy, check_floor};
use crate::owner::OwnerId;
use crate::payloads::{AcquireRequest, DescribeResponse, ExtendOutcome, FairAcquireResponse,
    ForceUnlockResponse, LatchCountResponse, LatchCreateRequest, ListLocksResponse, ListQuery,
    MultiAcquireRequest, MultiOutcome, PredicateSpec, ReentrantAcquireRequest,
    ReentrantAcquireResponse, ReleasedResponse, RwAcquireRequest, RwOutcome, RwReleaseRequest,
    SemanticAcquireRequest, SemanticDataResponse, SemanticOutcome, SemaphoreAcquireRequest,
    SemaphoreOutcome, TestamentReadResponse, TestamentSetRequest, TestamentSetResponse,
    UnlockOutcome};
use crate::promises::server::under_a_prefix;
use crate::redlock::{PendingFence, RedlockHandle, RedlockManager, RedlockRound, RingDial, RingStep};
use crate::reentrant::{PendingReentrant, ReentrantLockHandle};
use crate::rwlock::{PendingRead, PendingWrite, RwReadHandle, RwWriteHandle};
use crate::scan::Scan;
use crate::semantic::{Number, PendingSemantic, SemanticGuard};
use crate::service::{Admission, ForcedUnlock, LockOptionsPb, OwnedOutcome, PalisadeService,
    ServiceConfig, TryLockRequest, UnlockRequest, options_from_pb};
use crate::single::{PendingLock, RedisLockHandle, RedisLockManager};
use crate::span::Span;
use crate::status::{AuditLine, Code, Status};
use crate::text::decimal;

verus! {

/// The failure of the store, told after the words `what`.
pub open spec fn store_failed(e: Error, what: Seq<char>, m: String) -> bool {
    e@ == ErrorV::Backend(what + m@)
}

/// The answer to a failure of the store, told after the words `what`.
pub open spec fn store_failure(e: ApiError, what: Seq<char>, m: String) -> bool {
    e.status == 502 && e.message@ == "backend error: "@ + (what + m@)
}

/// A lease below the floor is refused with its length and the floor.
pub proof fn short_leases_are_told(
    what: &str,
    ttl: Span,
    shown: String,
    floor: Span,
    least: String,
    r: Result<(), Error>,
    c: RedisConfig,
    sound: Result<(), Error>,
)
    requires
        floor@ == 10_000_000,
        c@.default_ttl == ttl@,
        call_ensures(Span::debug_text, (&ttl,), shown),
        call_ensures(Span::debug_text, (&floor,), least),
        call_ensures(check_floor, (what, &ttl), r),
        call_ensures(RedisConfig::validate, (&c,), sound),
    ensures
        r is Ok <==> ttl@ >= 10_000_000,
        r matches Err(e) ==> e@ == ErrorV::InvalidConfig(
            what@ + shown@ + " is below the "@ + least@ + " floor"@,
        ),
        sound matches Err(e) ==> e@ == ErrorV::InvalidConfig("redis url is empty"@) || e@
            == ErrorV::InvalidConfig(
            "default ttl "@ + shown@ + " is below the "@ + least@ + " floor"@,
        ),
{
}

/// Every operation that takes a lease refuses a short one in the same words.
pub proof fn operations_refuse_short_leases_alike(
    m: RedisLockManager,
    key: &str,
    o: LockOptions,
    ttl: Span,
    refused: Error,
    fair: Result<PendingFair, Error>,
    read: Result<PendingRead, Error>,
    write: Result<PendingWrite, Error>,
)
    requires
        o.ttl == Some(ttl),
        call_ensures(check_floor, ("ttl ", &ttl), Err::<(), Error>(refused)),
        call_ensures(RedisLockManager::try_lock_fair, (&m, key, &o), fair),
        call_ensures(RedisLockManager::try_read, (&m, key, &o), read),
        call_ensures(RedisLockManager::try_write, (&m, key, &o), write),
    ensures
        fair matches Err(e) && e@ == refused@,
        read matches Err(e) && e@ == refused@,
        write matches Err(e) && e@ == refused@,
{
}

/// Renewals refuse a short lease in their own words.
pub proof fn renewals_refuse_short_leases_alike(
    ttl: Span,
    refused: Error,
    m: RedisLockHandle,
    mutex: Result<Invocation, Error>,
    f: FairLockHandle,
    fair: Result<Invocation, Error>,
    q: RedlockHandle,
    quorum: Result<Invocation, Error>,
    h: ReentrantLockHandle,
    hold: Result<LeaseCalls, Error>,
)
    requires
        call_ensures(check_floor, ("extend ttl ", &ttl), Err::<(), Error>(refused)),
        call_ensures(RedisLockHandle::extend, (&m, &ttl), mutex),
        call_ensures(FairLockHandle::extend, (&f, &ttl), fair),
        call_ensures(RedlockHandle::extend, (&q, &ttl), quorum),
        call_ensures(ReentrantLockHandle::extend, (&h, &ttl), hold),
    ensures
        mutex matches Err(e) && e@ == refused@,
        fair matches Err(e) && e@ == refused@,
        quorum matches Err(e) && e@ == refused@,
        hold matches Err(e) && e@ == refused@,
{
}

/// A failed acquisition says which kind of lock was asked for.
pub proof fn failed_acquisitions_say_what_was_asked_for(
    m: String,
    f: PendingFair,
    fair: Result<FairLockHandle, Error>,
    h: PendingReentrant,
    hold: Result<ReentrantLockHandle, Error>,
    r: PendingRead,
    read: Result<RwReadHandle, Error>,
    w: PendingWrite,
    write: Result<RwWriteHandle, Error>,
    s: PendingSemantic,
    manager: RedisLockManager,
    semantic: Result<RedisLockHandle, Error>,
    q: PendingFence,
    quorum: Result<RedlockHandle, Error>,
)
    requires
        call_ensures(PendingFair::complete, (f, Err::<(i64, i64), String>(m)), fair),
        call_ensures(PendingReentrant::complete, (h, Err::<(i64, i64), String>(m)), hold),
        call_ensures(PendingRead::complete, (r, Err::<(i64, i64), String>(m)), read),
        call_ensures(PendingWrite::complete, (w, Err::<(i64, i64), String>(m)), write),
        call_ensures(
            PendingSemantic::complete,
            (s, &manager, Err::<(i64, i64), String>(m)),
            semantic,
        ),
        call_ensures(PendingFence::make_handle, (q, Err::<i64, String>(m)), quorum),
    ensures
        fair matches Err(e) && store_failed(e, "fair acquire failed: "@, m),
        hold matches Err(e) && store_failed(e, "reentrant acquire failed: "@, m),
        read matches Err(e) && store_failed(e, "rw read-acquire failed: "@, m),
        write matches Err(e) && store_failed(e, "rw write-acquire failed: "@, m),
        semantic matches Err(e) && store_failed(e, "semantic acquire failed: "@, m),
        quorum matches Err(e) && store_failed(e, "fence allocation failed: "@, m),
{
}

/// A failed release says which kind of lock was to be released.
pub proof fn failed_releases_say_what_was_held(
    m: String,
    f: FairLockHandle,
    fair: Result<(), Error>,
    h: ReentrantLockHandle,
    one: Result<(), Error>,
    all: Result<(), Error>,
    r: RwReadHandle,
    read: Result<(), Error>,
    w: RwWriteHandle,
    write: Result<(), Error>,
    x: RedisLockHandle,
    mutex: Result<(), Error>,
)
    requires
        call_ensures(FairLockHandle::release_answer, (&f, Err::<i64, String>(m)), fair),
        call_ensures(ReentrantLockHandle::released_one, (&h, Err::<i64, String>(m)), one),
        call_ensures(ReentrantLockHandle::released_all, (&h, Err::<i64, String>(m)), all),
        call_ensures(RwReadHandle::release_answer, (&r, Err::<i64, String>(m)), read),
        call_ensures(RwWriteHandle::release_answer, (&w, Err::<i64, String>(m)), write),
        call_ensures(RedisLockHandle::release_answer, (&x, Err::<i64, String>(m)), mutex),
    ensures
        fair matches Err(e) && store_failed(e, "fair release failed: "@, m),
        one matches Err(e) && store_failed(e, "reentrant release failed: "@, m),
        all matches Err(e) && store_failed(e, "reentrant release-all failed: "@, m),
        read matches Err(e) && store_failed(e, "rw read-release failed: "@, m),
        write matches Err(e) && store_failed(e, "rw write-release failed: "@, m),
        mutex matches Err(e) && store_failed(e, "release script failed: "@, m),
{
}

/// A failed renewal says which kind of lock was to be renewed.
pub proof fn failed_renewals_say_what_was_held(
    m: String,
    f: &mut FairLockHandle,
    fair: Result<(), Error>,
    h: &mut ReentrantLockHandle,
    hold: Result<(), Error>,
    r: &mut RwReadHandle,
    read: Result<(), Error>,
    w: &mut RwWriteHandle,
    write: Result<(), Error>,
    x: &mut RedisLockHandle,
    mutex: Result<(), Error>,
)
    requires
        call_ensures(FairLockHandle::extended, (f, Err::<i64, String>(m)), fair),
        call_ensures(ReentrantLockHandle::extended, (h, Err::<i64, String>(m)), hold),
        call_ensures(RwReadHandle::extended, (r, Err::<i64, String>(m)), read),
        call_ensures(RwWriteHandle::extended, (w, Err::<i64, String>(m)), write),
        call_ensures(RedisLockHandle::extended, (x, Err::<i64, String>(m)), mutex),
    ensures
        fair matches Err(e) && store_failed(e, "fair extend failed: "@, m),
        hold matches Err(e) && store_failed(e, "reentrant extend failed: "@, m),
        read matches Err(e) && store_failed(e, "rw extend failed: "@, m),
        write matches Err(e) && store_failed(e, "rw extend failed: "@, m),
        mutex matches Err(e) && store_failed(e, "extend script failed: "@, m),
{
}

/// A failed operation of the manager says which it was.
pub proof fn failed_operations_say_which_it_was(
    m: RedisLockManager,
    why: String,
    probed: Result<bool, Error>,
    forced: Result<bool, Error>,
    unlocked: Result<bool, Error>,
    extended: Result<bool, Error>,
    key: &str,
    set: Result<(), Error>,
    read: Result<Option<Vec<u8>>, Error>,
    cleared: Result<(), Error>,
    l: RedisCountDownLatch,
    left: Result<u64, Error>,
)
    requires
        call_ensures(RedisLockManager::probed, (&m, Err::<i64, String>(why)), probed),
        call_ensures(RedisLockManager::force_unlocked, (&m, Err::<i64, String>(why)), forced),
        call_ensures(
            RedisLockManager::unlocked_with_token,
            (&m, Err::<i64, String>(why)),
            unlocked,
        ),
        call_ensures(
            RedisLockManager::extended_with_token,
            (&m, Err::<i64, String>(why)),
            extended,
        ),
        call_ensures(RedisLockManager::testament_set, (&m, key, Err::<i64, String>(why)), set),
        call_ensures(
            RedisLockManager::testament_read,
            (&m, Err::<Option<Vec<u8>>, String>(why)),
            read,
        ),
        call_ensures(RedisLockManager::testament_cleared, (&m, Err::<i64, String>(why)), cleared),
        call_ensures(RedisCountDownLatch::eval_remaining, (&l, Err::<i64, String>(why)), left),
    ensures
        probed matches Err(e) && store_failed(e, "probe failed: "@, why),
        forced matches Err(e) && store_failed(e, "force unlock failed: "@, why),
        unlocked matches Err(e) && store_failed(e, "unlock failed: "@, why),
        extended matches Err(e) && store_failed(e, "extend failed: "@, why),
        set matches Err(e) && store_failed(e, "testament set failed: "@, why),
        read matches Err(e) && store_failed(e, "testament read failed: "@, why),
        cleared matches Err(e) && store_failed(e, "testament clear failed: "@, why),
        left matches Err(e) && store_failed(e, "latch op failed: "@, why),
{
}

/// A description fails with the first of its three questions that failed.
pub proof fn failed_descriptions_tell_the_first_failure(
    m: RedisLockManager,
    held: Result<i64, String>,
    version: Result<Option<u64>, String>,
    lease: Result<i64, String>,
    r: Result<(bool, u64, u64), Error>,
)
    requires
        call_ensures(RedisLockManager::described, (&m, held, version, lease), r),
    ensures
        r is Ok <==> held is Ok && version is Ok && lease is Ok,
        held matches Err(why) ==> (r matches Err(e) && store_failed(
            e,
            "describe failed: "@,
            why,
        )),
        held is Ok && version is Err ==> (r matches Err(e) && store_failed(
            e,
            "describe failed: "@,
            version->Err_0,
        )),
        held is Ok && version is Ok && lease is Err ==> (r matches Err(e) && store_failed(
            e,
            "describe failed: "@,
            lease->Err_0,
        )),
{
}

/// What is refused before the store is asked says why.
pub proof fn refusals_say_why(
    key: &str,
    count: u32,
    latch: Result<Invocation, Error>,
    reply: Result<i64, String>,
    created: Result<RedisCountDownLatch, Error>,
    g: SemanticGuard,
    guard: Result<PendingSemantic, Error>,
    owner: OwnerId,
    owned: Result<PendingSemantic, Error>,
)
    requires
        call_ensures(RedisCountDownLatch::create, (key, count), latch),
        call_ensures(RedisCountDownLatch::created, (key, reply), created),
        call_ensures(SemanticGuard::acquire, (g,), guard),
        call_ensures(SemanticGuard::acquire_as, (g, owner), owned),
    ensures
        latch matches Err(e) ==> e@ == ErrorV::InvalidConfig(
            "latch initial count must be at least 1"@,
        ),
        reply matches Err(why) ==> (created matches Err(e) && store_failed(
            e,
            "latch init failed: "@,
            why,
        )),
        guard matches Err(e) ==> e@ == ErrorV::InvalidConfig("at least one predicate required"@),
        owned matches Err(e) ==> e@ == ErrorV::InvalidConfig("at least one predicate required"@),
        guard is Err <==> owned is Err,
{
}

/// Rings say which node failed, and how.
pub proof fn rings_say_which_node_failed(
    d: &mut RingDial,
    why: String,
    r: Result<(), Error>,
    refused: Result<RingStep, Error>,
    q: &mut RedlockHandle,
    replies: Vec<Option<i64>>,
    renewed: Result<(), Error>,
    p: RedlockHandle,
    released: Result<(), Error>,
)
    requires
        old(d).wf(),
        old(d).at < old(d).config@.len(),
        call_ensures(RingDial::step_after, (&*d, Some(why)), refused),
        call_ensures(RingDial::dialled, (d, Err::<(), String>(why)), r),
        call_ensures(RedlockHandle::extended, (q, &replies), renewed),
        call_ensures(RedlockHandle::run_release, (&p, &replies), released),
    ensures
        r matches Err(e) && e@ == ErrorV::Backend(
            "redlock connect "@ + old(d).config@[old(d).at as int] + ": "@ + why@,
        ),
        refused matches Err(e) && e@ == ErrorV::InvalidConfig(
            "bad redlock url `"@ + old(d).config@[old(d).at as int] + "`: "@ + why@,
        ),
        renewed is Err ==> renewed->Err_0@ == ErrorV::Backend(
            "extend round failed on all nodes"@,
        ) || renewed->Err_0@ == (ErrorV::Lost { key: old(q).key@, fence: old(q).fence@ }),
        released is Err ==> released->Err_0@ == ErrorV::Backend("release failed on all nodes"@)
            || released->Err_0@ == (ErrorV::Lost { key: p.key@, fence: p.fence@ }),
{
}

/// Managers say which endpoint was refused or not reached, and why.
pub proof fn managers_say_which_endpoint_failed(
    c: RedisConfig,
    why: String,
    refused: Result<RedisLockManager, Error>,
    unreached: Result<RedisLockManager, Error>,
)
    requires
        call_ensures(RedisConfig::validate, (&c,), Ok::<(), Error>(())),
        call_ensures(RedisLockManager::connected, (&c, Some(why), Ok::<(), String>(())), refused),
        call_ensures(
            RedisLockManager::connected,
            (&c, None::<String>, Err::<(), String>(why)),
            unreached,
        ),
    ensures
        refused matches Err(e) && e@ == ErrorV::InvalidConfig(
            "bad redis url `"@ + c@.url + "`: "@ + why@,
        ),
        unreached matches Err(e) && e@ == ErrorV::Backend("connect "@ + c@.url + ": "@ + why@),
{
}

/// Principals are refused by name, and the audit trail tells of it.
pub proof fn refusals_name_the_principal(
    p: Principal,
    key: &str,
    lock: Result<(), Status>,
    watch: Result<(), Status>,
    unlock: Result<(), Status>,
)
    requires
        call_ensures(Principal::check_lock, (&p, key), lock),
        call_ensures(Principal::may_watch, (&p, key), watch),
        call_ensures(Principal::check_unlock, (&p, key), unlock),
    ensures
        unlock matches Err(s) ==> s@.message == "principal `"@ + p.cfg.name@
            + "` may not touch keys outside its prefixes (`"@ + key@ + "`)"@ || s@.message
            == "principal `"@ + p.cfg.name@ + "` lacks permission for `"@ + key@ + "`"@,
        unlock matches Err(s) ==> (under_a_prefix(p, key@) ==> s@.message == "principal `"@
            + p.cfg.name@ + "` lacks permission for `"@ + key@ + "`"@),
        lock matches Err(s) ==> (s.code == Code::ResourceExhausted ==> s@.message == "principal `"@
            + p.cfg.name@ + "` hit max_keys="@ + decimal(p.cfg.max_keys as nat)),
        watch matches Err(s) ==> (s.code == Code::ResourceExhausted ==> s@.message
            == "principal `"@ + p.cfg.name@ + "` hit max_watchers="@ + decimal(
            p.cfg.max_watchers as nat,
        )),
        watch is Ok <==> under_a_prefix(p, key@) && p.cfg.can_watch && (p.cfg.max_watchers == 0
            || p.watchers < p.cfg.max_watchers),
        lock matches Err(s) ==> (s@.audit matches Some(a) && a.principal == p.cfg.name@ && a.action
            == "lock"@ && a.key == key@ && a.outcome == "denied"@),
        watch matches Err(s) ==> (s@.audit matches Some(a) && a.principal == p.cfg.name@
            && a.action == "watch"@ && a.key == key@ && a.outcome == "denied"@),
        unlock matches Err(s) ==> (s@.audit matches Some(a) && a.principal == p.cfg.name@
            && a.action == "unlock"@ && a.key == key@ && a.outcome == "denied"@),
{
    crate::promises::server::lemma_scope(p, key@);
}

/// Access lists say why they could not be read.
pub proof fn access_lists_say_why_they_were_refused(
    path: &str,
    why: String,
    unread: Result<Acl, Error>,
    unparsed: Result<Acl, Error>,
    cfgs: Vec<PrincipalConfig>,
    r: Result<Acl, Error>,
)
    requires
        call_ensures(
            Acl::load_file,
            (path, Err::<Result<Vec<PrincipalConfig>, String>, String>(why)),
            unread,
        ),
        call_ensures(Acl::from_json, (Err::<Vec<PrincipalConfig>, String>(why),), unparsed),
        call_ensures(Acl::from_json, (Ok::<Vec<PrincipalConfig>, String>(cfgs),), r),
    ensures
        unread matches Err(e) && e@ == ErrorV::InvalidConfig(
            "cannot read acl file "@ + path@ + ": "@ + why@,
        ),
        unparsed matches Err(e) && e@ == ErrorV::InvalidConfig("bad acl json: "@ + why@),
        r matches Err(e) ==> exists|i: int|
            0 <= i < cfgs@.len() && (#[trigger] cfgs@[i]).token@.len() == 0 && e@
                == ErrorV::InvalidConfig("principal `"@ + cfgs@[i].name@ + "` has empty token"@),
{
}

/// A lease above the server's maximum is refused with both.
pub proof fn long_leases_are_told(
    ms: u64,
    watchdog: Option<bool>,
    config: ServiceConfig,
    asked: Span,
    shown: String,
    most: String,
    r: Result<LockOptions, Status>,
)
    requires
        ms > 0,
        asked@ == ms * 1_000_000,
        call_ensures(Span::debug_text, (&asked,), shown),
        call_ensures(Span::debug_text, (&config.max_ttl,), most),
        call_ensures(options_from_pb, (Some(LockOptionsPb { ttl_ms: ms, watchdog }), &config), r),
    ensures
        r is Err <==> asked@ > config.max_ttl@,
        r matches Err(s) ==> s.code == Code::InvalidArgument && s@.message == "ttl "@ + shown@
            + " exceeds server maximum "@ + most@,
{
}

/// The service says what failed in the store.
pub proof fn the_service_says_what_failed(
    s: &mut PalisadeService,
    req: UnlockRequest,
    why: String,
    unlocked: Result<OwnedOutcome, Status>,
    t: PalisadeService,
    extended: Result<OwnedOutcome, Status>,
    f: &mut PalisadeService,
    who: &str,
    key: &str,
    forced: Result<ForcedUnlock, Status>,
    h: &mut PalisadeService,
    now: u128,
    beat: Result<(), Status>,
)
    requires
        call_ensures(PalisadeService::unlocked, (s, &req, Err::<i64, String>(why)), unlocked),
        call_ensures(PalisadeService::extended, (&t, Err::<i64, String>(why)), extended),
        call_ensures(
            PalisadeService::force_unlocked,
            (f, who, key, Err::<i64, String>(why)),
            forced,
        ),
        call_ensures(PalisadeService::heartbeat, (h, key, now), beat),
    ensures
        unlocked matches Err(e) && e.code == Code::Internal && e@.message == "backend error: "@ + (
        "unlock failed: "@ + why@),
        extended matches Err(e) && e.code == Code::Internal && e@.message == "backend error: "@ + (
        "extend failed: "@ + why@),
        forced matches Err(e) && e.code == Code::Internal && e@.message == "backend error: "@ + (
        "force unlock failed: "@ + why@),
        beat matches Err(e) ==> (e.code == Code::NotFound && e@.message
            == "unknown or expired session"@) || (e.code == Code::ResourceExhausted && e@.message
            == "heartbeat exceeds rate floor (ttl/20); use the documented ttl/3 cadence"@),
{
}

/// The demo says what failed in the store.
pub proof fn the_demo_says_what_failed(
    d: DemoState,
    why: String,
    unlocked: (Result<UnlockOutcome, ApiError>, Option<Observation>),
    extended: Result<ExtendOutcome, ApiError>,
    forced: Result<ForceUnlockResponse, ApiError>,
    key: &str,
    latch: Result<RedisCountDownLatch, ApiError>,
    l: RedisCountDownLatch,
    count: Result<LatchCountResponse, ApiError>,
    req: TestamentSetRequest,
    stored: Result<TestamentSetResponse, ApiError>,
    read: Result<TestamentReadResponse, ApiError>,
)
    requires
        call_ensures(DemoState::released, (&d, Err::<i64, String>(why)), unlocked),
        call_ensures(DemoState::extended, (&d, Err::<i64, String>(why)), extended),
        call_ensures(DemoState::force_unlocked, (&d, Err::<i64, String>(why)), forced),
        call_ensures(DemoState::latch_created, (&d, key, Err::<i64, String>(why)), latch),
        call_ensures(DemoState::latch_counted, (&d, &l, Err::<i64, String>(why)), count),
        call_ensures(DemoState::testament_stored, (&d, &req, Err::<i64, String>(why)), stored),
        call_ensures(
            DemoState::testament_told,
            (&d, Err::<Option<Vec<u8>>, String>(why)),
            read,
        ),
    ensures
        unlocked.0 matches Err(e) && store_failure(e, "unlock failed: "@, why),
        extended matches Err(e) && store_failure(e, "extend failed: "@, why),
        forced matches Err(e) && store_failure(e, "force unlock failed: "@, why),
        latch matches Err(e) && store_failure(e, "latch init failed: "@, why),
        count matches Err(e) && store_failure(e, "latch op failed: "@, why),
        stored matches Err(e) && store_failure(e, "testament set failed: "@, why),
        read matches Err(e) && store_failure(e, "testament read failed: "@, why),
{
}

/// The demo says what failed when it reached for protected data or gave locks
/// back.
pub proof fn the_demo_says_what_it_could_not_reach(
    d: DemoState,
    cause: &str,
    data: ApiError,
    why: String,
    set: Result<(), ApiError>,
    got: Result<SemanticDataResponse, ApiError>,
    f: FairLockHandle,
    fair: Result<ReleasedResponse, ApiError>,
    rw: RwRelease,
    access: Result<ReleasedResponse, ApiError>,
)
    requires
        call_ensures(DemoState::data_unreachable, (&d, cause), data),
        call_ensures(DemoState::semantic_data_set, (&d, Err::<(), String>(why)), set),
        call_ensures(
            DemoState::semantic_data_got,
            (&d, Err::<Vec<(String, String)>, String>(why)),
            got,
        ),
        call_ensures(
            DemoState::fair_released,
            (&d, Some(&f), Some(Err::<i64, String>(why))),
            fair,
        ),
        call_ensures(DemoState::rw_released, (&d, &rw, Some(Err::<i64, String>(why))), access),
    ensures
        data.status == 502 && data.message@ == "backend error: "@ + ("data connect: "@ + cause@),
        set matches Err(e) && store_failure(e, "hset failed: "@, why),
        got matches Err(e) && store_failure(e, "hgetall failed: "@, why),
        fair matches Err(e) && store_failure(e, "fair release failed: "@, why),
        rw is Read ==> (access matches Err(e) && store_failure(
            e,
            "rw read-release failed: "@,
            why,
        )),
        rw is Write ==> (access matches Err(e) && store_failure(
            e,
            "rw write-release failed: "@,
            why,
        )),
{
}

/// The demo says what is wrong with a request.
pub proof fn the_demo_says_what_is_wrong(
    d: DemoState,
    s: &str,
    lower: String,
    policy: Result<SafetyPolicy, ApiError>,
    c: LatchCreateRequest,
    latch: Result<Invocation, ApiError>,
    g: SemanticAcquireRequest,
    guard: Result<PendingSemantic, ApiError>,
    h: ReentrantAcquireRequest,
    hold: Result<PendingReentrant, ApiError>,
    m: MultiAcquireRequest,
    now: u128,
    multi: Result<MultiAcquire, ApiError>,
)
    requires
        now <= u128::MAX - 30_000_000_000,
        call_ensures(crate::text::ascii_lower, (s,), lower),
        call_ensures(parse_safety_policy, (s,), policy),
        call_ensures(DemoState::latch_create, (&d, &c), latch),
        call_ensures(DemoState::semantic_acquire, (&d, &g), guard),
        call_ensures(DemoState::reentrant_acquire, (&d, &h), hold),
        call_ensures(DemoState::multi_lock, (&d, &m, now), multi),
    ensures
        policy matches Err(e) ==> e.message@ == "unknown safety policy `"@ + lower@
            + "` (cowardly|balanced|aggressive)"@,
        latch matches Err(e) ==> e.message@ == "invalid config: "@
            + "latch initial count must be at least 1"@,
        guard is Err && g.predicates@.len() == 0 ==> guard->Err_0.message@
            == "at least one predicate required"@,
        hold matches Err(e) ==> e.message@ == "owner_id `"@ + h.owner_id->0@
            + "` is not a valid uuid"@,
        multi matches Err(e) ==> (e.message@ == "keys must not be empty"@ <==> m.keys@.len() == 0)
            && (m.keys@.len() > 0 ==> e.message@ == "invalid config: "@
            + "multi-lock received duplicate keys"@),
{
    reveal_strlit("keys must not be empty");
    reveal_strlit("invalid config: ");
    assert("keys must not be empty"@[0] == 'k');
    assert(("invalid config: "@ + "multi-lock received duplicate keys"@)[0] == 'i');
}

/// So does it for predicates and modes.
pub proof fn the_demo_says_which_word_is_unknown(
    p: PredicateSpec,
    d: &mut DemoState,
    req: RwReleaseRequest,
    r: Result<RwRelease, ApiError>,
    a: AcquireRequest,
    acquired: Result<LockOptions, ApiError>,
)
    requires
        call_ensures(DemoState::rw_release, (d, &req), r),
        call_ensures(DemoState::acquire_options, (&a,), acquired),
    ensures
        compiled(p) matches Err(e) ==> (p.op@ == "gt"@ ==> e.message == "predicate `"@ + p.field@
            + "` needs numeric value"@) && (p.op@ != "gt"@ ==> e.message
            == "unknown predicate op `"@ + p.op@ + "` (eq|gt|absent)"@),
        r matches Err(e) ==> e.message@ == "mode must be `read` or `write`, got `"@ + req.mode@
            + "`"@,
        acquired is Err && a.key@.len() == 0 ==> acquired->Err_0.message@
            == "key must not be empty"@,
{
}

/// A lock that is gone is not renewed: it is lost, with its key and fence.
pub proof fn gone_locks_are_lost(
    ttl: Span,
    m: RedisLockHandle,
    mutex: Result<Invocation, Error>,
    f: FairLockHandle,
    fair: Result<Invocation, Error>,
    h: ReentrantLockHandle,
    hold: Result<LeaseCalls, Error>,
    r: RwReadHandle,
    read: Result<LeaseCalls, Error>,
    w: RwWriteHandle,
    write: Result<LeaseCalls, Error>,
    q: RedlockHandle,
    quorum: Result<Invocation, Error>,
)
    requires
        ttl@ >= 10_000_000,
        m.released && f.gone && h.gone && r.gone && w.gone && q.gone,
        call_ensures(RedisLockHandle::extend, (&m, &ttl), mutex),
        call_ensures(FairLockHandle::extend, (&f, &ttl), fair),
        call_ensures(ReentrantLockHandle::extend, (&h, &ttl), hold),
        call_ensures(RwReadHandle::extend, (&r, &ttl), read),
        call_ensures(RwWriteHandle::extend, (&w, &ttl), write),
        call_ensures(RedlockHandle::extend, (&q, &ttl), quorum),
    ensures
        mutex matches Err(e) && e@ == (ErrorV::Lost { key: m.key@, fence: m.fence@ }),
        fair matches Err(e) && e@ == (ErrorV::Lost { key: f.key@, fence: f.fence@ }),
        hold matches Err(e) && e@ == (ErrorV::Lost { key: h.key@, fence: h.fence@ }),
        read matches Err(e) && e@ == (ErrorV::Lost { key: r.key@, fence: r.fence@ }),
        write matches Err(e) && e@ == (ErrorV::Lost { key: w.key@, fence: w.fence@ }),
        quorum matches Err(e) && e@ == (ErrorV::Lost { key: q.key@, fence: q.fence@ }),
{
}

/// A lock that the store no longer knows is lost, with its key and fence.
pub proof fn unknown_locks_are_lost(
    n: i64,
    m: RedisLockHandle,
    mutex: Result<(), Error>,
    f: FairLockHandle,
    fair: Result<(), Error>,
    r: RwReadHandle,
    read: Result<(), Error>,
    w: RwWriteHandle,
    write: Result<(), Error>,
)
    requires
        n < 0,
        call_ensures(RedisLockHandle::release_answer, (&m, Ok::<i64, String>(n)), mutex),
        call_ensures(FairLockHandle::release_answer, (&f, Ok::<i64, String>(n)), fair),
        call_ensures(RwReadHandle::release_answer, (&r, Ok::<i64, String>(n)), read),
        call_ensures(RwWriteHandle::release_answer, (&w, Ok::<i64, String>(n)), write),
    ensures
        mutex matches Err(e) && e@ == (ErrorV::Lost { key: m.key@, fence: m.fence@ }),
        fair matches Err(e) && e@ == (ErrorV::Lost { key: f.key@, fence: f.fence@ }),
        read matches Err(e) && e@ == (ErrorV::Lost { key: r.key@, fence: r.fence@ }),
        write matches Err(e) && e@ == (ErrorV::Lost { key: w.key@, fence: w.fence@ }),
{
}

/// Slots refuse a short lease in the words of an acquisition.
pub proof fn slots_refuse_short_leases_alike(
    ttl: Span,
    refused: Error,
    r: RwReadHandle,
    read: Result<LeaseCalls, Error>,
    w: RwWriteHandle,
    write: Result<LeaseCalls, Error>,
    m: RedisLockManager,
    key: &str,
    owner: OwnerId,
    o: LockOptions,
    begun: Result<PendingRead, Error>,
    begun_write: Result<PendingWrite, Error>,
)
    requires
        o.ttl == Some(ttl),
        call_ensures(check_floor, ("ttl ", &ttl), Err::<(), Error>(refused)),
        call_ensures(RwReadHandle::extend, (&r, &ttl), read),
        call_ensures(RwWriteHandle::extend, (&w, &ttl), write),
        call_ensures(RedisLockManager::try_read_as, (&m, key, owner, &o), begun),
        call_ensures(RedisLockManager::try_write_as, (&m, key, owner, &o), begun_write),
    ensures
        read matches Err(e) && e@ == refused@,
        write matches Err(e) && e@ == refused@,
        begun matches Err(e) && e@ == refused@,
        begun_write matches Err(e) && e@ == refused@,
{
}

/// So do mutexes and quorum locks.
pub proof fn mutexes_refuse_short_leases_alike(
    ttl: Span,
    refused: Error,
    told: Error,
    m: RedisLockManager,
    key: &str,
    token: &str,
    o: LockOptions,
    with: Result<PendingLock, Error>,
    plain: Result<PendingLock, Error>,
    q: RedlockManager,
    round: Result<RedlockRound, Error>,
    renewed: Result<Invocation, Error>,
)
    requires
        o.ttl == Some(ttl),
        call_ensures(check_floor, ("ttl ", &ttl), Err::<(), Error>(refused)),
        call_ensures(check_floor, ("extend ttl ", &ttl), Err::<(), Error>(told)),
        call_ensures(RedisLockManager::try_lock_with, (&m, key, &o), with),
        call_ensures(RedisLockManager::try_lock, (&m, key), plain),
        call_ensures(RedlockManager::try_lock, (&q, key, &o), round),
        call_ensures(RedisLockManager::extend_with_token, (&m, key, token, &ttl), renewed),
    ensures
        with matches Err(e) && e@ == refused@,
        m.default_ttl@ == ttl@ ==> (plain matches Err(e) && e@ == refused@),
        round matches Err(e) && e@ == refused@,
        renewed matches Err(e) && e@ == told@,
{
}

/// The demo answers the failure of an operation by the kind of the failure,
/// whatever the operation, and keeps nothing then.
pub proof fn the_demo_answers_failures_by_kind(
    e: Error,
    plain: ApiError,
    a: &mut DemoState,
    rw: RwAcquireRequest,
    read: (Result<RwOutcome, ApiError>, Option<Invocation>),
    b: &mut DemoState,
    write: (Result<RwOutcome, ApiError>, Option<Invocation>),
    c: &mut DemoState,
    fair: (Result<FairAcquireResponse, ApiError>, Option<LeaseCalls>),
    d: &mut DemoState,
    own: ReentrantAcquireRequest,
    hold: Result<ReentrantAcquireResponse, ApiError>,
)
    requires
        call_ensures(ApiError::from_error, (&e,), plain),
        call_ensures(DemoState::rw_read_acquired, (a, &rw, Err::<RwReadHandle, Error>(e)), read),
        call_ensures(DemoState::rw_write_acquired, (b, &rw, Err::<RwWriteHandle, Error>(e)), write),
        call_ensures(DemoState::fair_locked, (c, &rw, Err::<FairLockHandle, Error>(e)), fair),
        call_ensures(
            DemoState::reentrant_acquired,
            (d, &own, Err::<ReentrantLockHandle, Error>(e)),
            hold,
        ),
    ensures
        read.0 matches Err(x) ==> x@ == plain@,
        write.0 matches Err(x) ==> x@ == plain@,
        fair.0 matches Err(x) && x@ == plain@,
        hold matches Err(x) && x@ == plain@,
        final(d).live.reentrant@ == old(d).live.reentrant@,
        final(a).sessions == old(a).sessions && final(b).sessions == old(b).sessions && final(
            c).sessions == old(c).sessions && final(d).sessions == old(d).sessions,
        final(a).live.fair == old(a).live.fair && final(b).live.fair == old(b).live.fair && final(
            d).live.fair == old(d).live.fair && final(c).live.multi == old(c).live.multi,
{
}

/// So it does for listings, descriptions, permits and multi-locks.
pub proof fn the_demo_answers_other_failures_by_kind(
    e: Error,
    plain: ApiError,
    d: DemoState,
    q: ListQuery,
    listed: Result<ListLocksResponse, ApiError>,
    described: Result<DescribeResponse, ApiError>,
    given_back: Result<ReleasedResponse, ApiError>,
    denied: Result<SemanticOutcome, ApiError>,
    a: &mut DemoState,
    took: SemaphoreAcquireRequest,
    permit: (Result<SemaphoreOutcome, ApiError>, Option<SemaphorePermit>),
    b: &mut DemoState,
    multi: Result<MultiOutcome, ApiError>,
)
    requires
        call_ensures(ApiError::from_error, (&e,), plain),
        call_ensures(DemoState::listed, (&d, &q, Err::<Vec<(String, u64)>, Error>(e)), listed),
        call_ensures(DemoState::described, (&d, Err::<(bool, u64, u64), Error>(e)), described),
        call_ensures(
            DemoState::semaphore_released,
            (&d, Some(Err::<(), Error>(e))),
            given_back,
        ),
        call_ensures(DemoState::semantic_denied, (&d, Err::<(bool, u64, u64), Error>(e)), denied),
        call_ensures(
            DemoState::semaphore_acquired,
            (a, &took, Err::<FencingToken, Error>(e)),
            permit,
        ),
        call_ensures(DemoState::multi_locked, (b, Err::<MultiLockHandle, Error>(e)), multi),
    ensures
        listed matches Err(x) && x@ == plain@,
        described matches Err(x) && x@ == plain@,
        given_back matches Err(x) && x@ == plain@,
        denied matches Err(x) && x@ == plain@,
        permit.0 matches Err(x) ==> x@ == plain@,
        multi matches Err(x) ==> x@ == plain@,
        final(a).sessions == old(a).sessions && final(b).sessions == old(b).sessions,
        final(a).live.fair == old(a).live.fair && final(b).live.fair == old(b).live.fair,
{
}

/// Lost slots, holds and fair locks are told as such by the demo.
pub proof fn the_demo_tells_lost_locks(
    d: DemoState,
    n: i64,
    r: RwReadHandle,
    call: Option<LeaseCalls>,
    read: Result<ReleasedResponse, ApiError>,
    w: RwWriteHandle,
    i: Option<Invocation>,
    write: Result<ReleasedResponse, ApiError>,
    f: FairLockHandle,
    fair: Result<ReleasedResponse, ApiError>,
)
    requires
        n < 0,
        call_ensures(
            DemoState::rw_released,
            (&d, &RwRelease::Read(r, call), Some(Ok::<i64, String>(n))),
            read,
        ),
        call_ensures(
            DemoState::rw_released,
            (&d, &RwRelease::Write(w, i), Some(Ok::<i64, String>(n))),
            write,
        ),
        call_ensures(DemoState::fair_released, (&d, Some(&f), Some(Ok::<i64, String>(n))), fair),
    ensures
        read matches Err(e) && e.status == 500 && e.message@ == "lock lost: "@ + r.key@
            + " (fence "@ + decimal(r.fence@ as nat) + ")"@,
        write matches Err(e) && e.status == 500 && e.message@ == "lock lost: "@ + w.key@
            + " (fence "@ + decimal(w.fence@ as nat) + ")"@,
        fair matches Err(e) && e.status == 500 && e.message@ == "lock lost: "@ + f.key@
            + " (fence "@ + decimal(f.fence@ as nat) + ")"@,
{
}

/// Predicates are added to a guard, which otherwise stays as it is.
pub proof fn predicates_leave_the_guard_as_it_is(
    g: SemanticGuard,
    field: &str,
    v: &str,
    n: Number,
    eq: SemanticGuard,
    gt: SemanticGuard,
    absent: SemanticGuard,
)
    requires
        call_ensures(SemanticGuard::field_equals, (g, field, v), eq),
        call_ensures(SemanticGuard::field_gt, (g, field, n), gt),
        call_ensures(SemanticGuard::field_absent, (g, field), absent),
    ensures
        eq.key == g.key && eq.ttl == g.ttl && eq.watchdog == g.watchdog,
        gt.key == g.key && gt.ttl == g.ttl && gt.watchdog == g.watchdog,
        absent.key == g.key && absent.ttl == g.ttl && absent.watchdog == g.watchdog,
{
}

/// Administrators are refused in the words of the access list.
pub proof fn administrators_are_refused_by_the_access_list(
    s: PalisadeService,
    bearer: Option<&str>,
    key: &str,
    who: Result<&Principal, Status>,
    p: Principal,
    may: Result<(), Status>,
    forced: Result<(String, Command), Status>,
    listed: Result<(AuditLine, Scan), Status>,
)
    requires
        call_ensures(Acl::resolve, (&s.acl, bearer), who),
        who matches Ok(q) ==> *q == p,
        call_ensures(Principal::check_admin, (&p, key), may),
        call_ensures(PalisadeService::unlock_force, (&s, bearer, key), forced),
        call_ensures(PalisadeService::list_locks, (&s, bearer, key), listed),
    ensures
        who matches Err(w) ==> forced is Err && forced->Err_0@ == w@ && listed is Err
            && listed->Err_0@ == w@,
        who is Ok && may is Err ==> forced is Err && forced->Err_0@ == may->Err_0@ && listed is Err
            && listed->Err_0@ == may->Err_0@,
        who is Ok && may is Ok ==> forced is Ok && listed is Ok,
        forced matches Ok((name, _)) ==> name@ == p.cfg.name@,
        listed matches Ok((line, scan)) ==> line.principal@ == p.cfg.name@ && line.action@
            == "list-locks"@ && line.key@ == key@ && line.outcome@ == "ok"@ && scan.cursor == 0
            && scan.fresh && scan.prefix@ == key@ && scan.batch@.len() == 0,
{
}

/// An attempt is renewed where the request says so, or the manager's default;
/// a forced unlock touches nothing but the registry.
pub proof fn attempts_are_renewed_as_asked(
    s: PalisadeService,
    bearer: Option<&str>,
    req: TryLockRequest,
    r: Result<(Admission, PendingLock), Status>,
    t: &mut PalisadeService,
    who: &str,
    key: &str,
    reply: Result<i64, String>,
    forced: Result<ForcedUnlock, Status>,
)
    requires
        call_ensures(PalisadeService::try_lock, (&s, bearer, &req), r),
        call_ensures(PalisadeService::force_unlocked, (t, who, key, reply), forced),
    ensures
        r matches Ok((a, p)) ==> p.watchdog == (if req.options is Some
            && req.options->0.watchdog is Some {
            req.options->0.watchdog->0
        } else {
            s.manager.watchdog_default
        }) && a.session@ == req.session@ && a.key@ == req.key@,
        final(t).sessions == old(t).sessions && final(t).acl == old(t).acl && final(t).hub == old(
            t).hub && final(t).ready == old(t).ready && final(t).config == old(t).config,
        forced is Err <==> reply is Err,
{
}

} // verus!
