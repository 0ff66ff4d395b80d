//! The web demo.

use palisade::command::{Arg, Command, Invocation, Program, Script};
use palisade::demo::{clamp_ttl, parse_safety_policy, rw_map_key, tier_name, ApiError, DemoState, Observation};
use palisade::demo_coordination::{render_event, SemanticStep};
use palisade::demo_handles::{clamp_wait, RwRelease};
use palisade::error::{backend, held, invalid, lost, timeout};
use palisade::fencing::FencingToken;
use palisade::lattice::Tier;
use palisade::latch::RedisCountDownLatch;
use palisade::multi::MultiLockHandle;
use palisade::options::SafetyPolicy;
use palisade::owner::OwnerId;
use palisade::payloads::{
    AcquireRequest, ExtendOutcome, ExtendRequest, FenceReleaseRequest, ForceUnlockRequest,
    LatchCreateRequest, LatchKeyRequest, LatchWaitRequest, ListQuery, LockOutcome,
    MultiAcquireRequest, MultiOutcome, MultiReleaseRequest, PredicateSpec,
    ReentrantAcquireRequest, ReentrantReleaseRequest, ReleaseRequest, RwAcquireRequest, RwOutcome,
    RwReleaseRequest, SemanticAcquireRequest, SemanticDataRequest, SemanticOutcome,
    SemaphoreAcquireRequest, SemaphoreOutcome, SessionHeartbeatOutcome, SessionRegisterRequest, TestamentSetRequest,
    UnlockOutcome,
};
use palisade::reentrant::ReentrantLockHandle;
use palisade::single::{RedisLockHandle, RedisLockManager};
use palisade::span::Span;
use palisade::watch_hub::LockEvent;

fn manager() -> RedisLockManager {
    RedisLockManager { default_ttl: Span::from_secs(30), watchdog_default: false }
}

fn demo() -> DemoState {
    DemoState::new(manager())
}

fn grant(key: &str, fence: u64) -> RedisLockHandle {
    manager().build_handle_from_parts(key, OwnerId::from_bits(1), fence, Span::from_millis(4_000))
}

fn acquire_request(key: &str) -> AcquireRequest {
    AcquireRequest {
        key: key.into(),
        ttl_ms: None,
        watchdog: None,
        safety_policy: None,
        session_token: None,
    }
}

fn refused<T: std::fmt::Debug>(r: Result<T, ApiError>) -> (u16, String) {
    let e = r.unwrap_err();
    (e.status, e.message)
}

fn script(i: &Invocation) -> Script {
    match &i.program {
        Program::Known(s) => *s,
        other => panic!("{other:?}"),
    }
}

fn line(c: &Command) -> String {
    let mut out = c.name.clone();
    for a in &c.args {
        match a {
            Arg::Text(t) => out = format!("{out} {t}"),
            Arg::Int(n) => out = format!("{out} {n}"),
            Arg::Bytes(b) => out = format!("{out} {b:?}"),
        }
    }
    out
}

#[test]
fn leases_are_clamped() {
    for (asked, ms) in [(None, 4_000), (Some(8_000), 8_000), (Some(61_000), 60_000), (Some(0), 10)] {
        assert_eq!(clamp_ttl(asked).as_millis(), ms);
    }
    assert_eq!(clamp_wait(None, 2_000).as_millis(), 2_000);
    assert_eq!(clamp_wait(Some(31_000), 2_000).as_millis(), 30_000);
}

#[test]
fn policies_are_read_in_any_case() {
    assert_eq!(parse_safety_policy("COWARDLY").unwrap(), SafetyPolicy::Cowardly);
    assert_eq!(parse_safety_policy("balanced").unwrap(), SafetyPolicy::Balanced);
    assert_eq!(parse_safety_policy("Aggressive").unwrap(), SafetyPolicy::Aggressive);
    assert_eq!(
        refused(parse_safety_policy("Bold")),
        (400, "unknown safety policy `bold` (cowardly|balanced|aggressive)".to_string())
    );
}

#[test]
fn errors_map_to_status_codes() {
    assert_eq!(ApiError::from_error(&invalid("x")).status, 400);
    assert_eq!(ApiError::from_error(&backend("x", "")).status, 502);
    assert_eq!(ApiError::from_error(&held("x")).status, 500);
    assert_eq!(ApiError::from_error(&lost("x", 1)).status, 500);
    assert_eq!(tier_name(Tier::Critical), "CRITICAL");
    assert_eq!(rw_map_key("k", 12), "k|12");
}

#[test]
fn locks_are_granted_and_denied() {
    let mut d = demo();
    let req = acquire_request("k");
    let p = d.acquire(&req).expect("valid");
    assert_eq!(p.ttl.as_millis(), 4_000);
    assert!(!p.watchdog);
    let end = d.acquired(&req, Ok(grant("k", 9)), 0);
    match end.answer {
        Ok(LockOutcome::Granted { key, token, fence, ttl_ms }) => {
            assert_eq!(key, "k");
            assert_eq!(token, OwnerId::from_bits(1).token());
            assert_eq!((fence, ttl_ms), (9, 4_000));
        }
        other => panic!("{other:?}"),
    }
    assert_eq!(end.observed, Some(Observation { ok: true, denied: false }));
    let end = d.acquired(&req, Err(held("k")), 0);
    assert!(matches!(end.answer, Ok(LockOutcome::Held { .. })));
    assert_eq!(end.observed, Some(Observation { ok: true, denied: true }));
    let end = d.acquired(&req, Err(backend("x", "y")), 0);
    assert_eq!(refused(end.answer).0, 502);
    assert_eq!(end.observed, Some(Observation { ok: false, denied: false }));
    assert_eq!(
        refused(d.acquire(&acquire_request(""))),
        (400, "key must not be empty".to_string())
    );
    let odd = AcquireRequest { safety_policy: Some("odd".into()), ..acquire_request("k") };
    assert_eq!(refused(d.acquire(&odd)).0, 400);
}

#[test]
fn grants_are_bound_to_known_sessions() {
    let mut d = demo();
    let req = AcquireRequest { session_token: Some("nobody".into()), ..acquire_request("k") };
    let end = d.acquired(&req, Ok(grant("k", 9)), 0);
    assert_eq!(refused(end.answer), (404, "unknown or expired session".to_string()));
    assert!(end.observed.is_none());
    assert_eq!(end.undo.expect("undone").release.keys[0], "k");
    let s = d.session_register(SessionRegisterRequest { client_id: "c".into(), ttl_ms: None }, 0);
    assert_eq!(s.ttl_ms, 10_000);
    let req = AcquireRequest { session_token: Some(s.session_token.clone()), ..acquire_request("k") };
    assert!(d.acquired(&req, Ok(grant("k", 9)), 0).answer.is_ok());
    let key = LatchKeyRequest { key: s.session_token };
    assert_eq!(d.session_heartbeat(&key, 1), SessionHeartbeatOutcome::RateLimited);
    assert_eq!(
        d.session_heartbeat(&key, 4_000_000_000),
        SessionHeartbeatOutcome::Accepted
    );
    let locks = d.session_close(&key);
    assert_eq!(locks.len(), 1);
    assert_eq!(script(&locks[0].clear_will), Script::WillDel);
    assert_eq!(locks[0].release.keys[0], "k");
    assert!(matches!(&locks[0].release.args[0], Arg::Text(t) if *t == OwnerId::from_bits(1).token()));
    assert_eq!(d.session_closed(&vec![Ok(true)]).released_locks, 1);
    assert_eq!(d.session_heartbeat(&key, 5_000_000_000), SessionHeartbeatOutcome::Unknown);
}

#[test]
fn unlocks_extensions_and_forced_unlocks() {
    let d = demo();
    let f = d.release(&ReleaseRequest { key: "k".into(), token: "t".into() });
    assert_eq!(script(&f.clear_will), Script::WillDel);
    assert_eq!(script(&f.release), Script::Release);
    assert_eq!(d.released(Ok(1)).0.unwrap(), UnlockOutcome::Released);
    assert_eq!(d.released(Ok(0)).0.unwrap(), UnlockOutcome::Lost);
    let (answer, observed) = d.released(Err("x".into()));
    assert_eq!(refused(answer).0, 502);
    assert!(observed.is_none());
    let i = d
        .extend(&ExtendRequest { key: "k".into(), token: "t".into(), ttl_ms: 1 })
        .expect("clamped");
    assert!(matches!(i.args[1], Arg::Int(10)));
    assert_eq!(d.extended(Ok(1)).unwrap(), ExtendOutcome::Extended);
    assert_eq!(d.extended(Ok(0)).unwrap(), ExtendOutcome::Lost);
    assert_eq!(line(&d.force_unlock(&ForceUnlockRequest { key: "k".into() })), "DEL k");
    assert!(d.force_unlocked(Ok(1)).unwrap().released);
    assert!(!d.force_unlocked(Ok(0)).unwrap().released);
}

#[test]
fn keys_are_described_and_listed() {
    let d = demo();
    assert_eq!(line(&d.describe("k").lease), "PTTL k");
    let r = d.described(Ok((true, 3, 40))).unwrap();
    assert_eq!((r.held, r.version, r.ttl_ms), (true, 3, 40));
    assert_eq!(refused(d.described(Err(held("k")))).0, 500);
    let q = ListQuery { prefix: None };
    assert_eq!(d.list_locks(&q).prefix, "");
    let q = ListQuery { prefix: Some("a/".into()) };
    assert_eq!(d.list_locks(&q).prefix, "a/");
    let l = d.listed(&q, Ok(vec![("a/b".into(), 7)])).unwrap();
    assert_eq!((l.prefix.as_str(), l.locks[0].key.as_str(), l.locks[0].ttl_ms), ("a/", "a/b", 7));
}

fn hold(owner: u128) -> ReentrantLockHandle {
    ReentrantLockHandle {
        key: "k".into(),
        owner: OwnerId::from_bits(owner),
        fence: FencingToken::new(3),
        gone: false,
    }
}

#[test]
fn owners_enter_again_and_leave_hold_by_hold() {
    let mut d = demo();
    let req = |owner_id| ReentrantAcquireRequest { key: "k".into(), ttl_ms: None, owner_id };
    assert!(d.reentrant_acquire(&req(None)).is_ok());
    let id = OwnerId::from_bits(5).token();
    assert_eq!(d.reentrant_acquire(&req(Some(id.clone()))).unwrap().owner.bits, 5);
    assert_eq!(
        refused(d.reentrant_acquire(&req(Some("x".into())))),
        (400, "owner_id `x` is not a valid uuid".to_string())
    );
    for _ in 0..2 {
        let a = d.reentrant_acquired(&req(None), Ok(hold(5))).expect("kept");
        assert_eq!((a.owner_id.as_str(), a.fence), (id.as_str(), 3));
    }
    assert_eq!(refused(d.reentrant_acquired(&req(None), Err(held("k")))).0, 500);
    let out = |all| ReentrantReleaseRequest { key: "k".into(), owner_id: id.clone(), all };
    for _ in 0..2 {
        let r = d.reentrant_release(&out(None)).expect("a hold");
        assert_eq!(script(r.call.as_ref().unwrap()), Script::ReentrantRelease);
        assert!(d.reentrant_released(Some(&r), Some(Ok(0))).unwrap().released);
        assert_eq!(refused(d.reentrant_released(Some(&r), Some(Ok(-1)))).0, 500);
    }
    assert!(d.reentrant_release(&out(None)).is_none());
    assert!(!d.reentrant_released(None, None).unwrap().released);
    for _ in 0..2 {
        d.reentrant_acquired(&req(None), Ok(hold(5))).expect("kept");
    }
    let r = d.reentrant_release(&out(Some(true))).expect("holds");
    assert_eq!(script(r.call.as_ref().unwrap()), Script::ReentrantReleaseAll);
    assert!(d.reentrant_release(&out(Some(true))).is_none());
}

#[test]
fn reader_and_writer_slots_are_kept() {
    let mut d = demo();
    let req = RwAcquireRequest { key: "k".into(), ttl_ms: Some(1_000) };
    let read = |d: &DemoState| d.rw_read(&req).unwrap().complete(Ok((1, 4)));
    let h = read(&d);
    let (answer, dropped) = d.rw_read_acquired(&req, h);
    assert_eq!(answer.unwrap(), RwOutcome::Acquired { fence: 4 });
    assert!(dropped.is_none());
    let h = read(&d);
    let (_, dropped) = d.rw_read_acquired(&req, h);
    assert_eq!(script(&dropped.expect("displaced")), Script::RwReadRelease);
    let h = d.rw_write(&req).unwrap().complete(Ok((1, 4)));
    assert!(d.rw_write_acquired(&req, h).0.is_ok());
    let (answer, _) = d.rw_write_acquired(&req, Err(held("k")));
    assert_eq!(answer.unwrap(), RwOutcome::Held);
    let out = |mode: &str| RwReleaseRequest { key: "k".into(), fence: 4, mode: mode.into() };
    let r = d.rw_release(&out("read")).unwrap();
    assert!(matches!(r, RwRelease::Read(_, Some(_))));
    assert!(d.rw_released(&r, Some(Ok(0))).unwrap().released);
    assert_eq!(refused(d.rw_released(&r, Some(Ok(-1)))).0, 500);
    let r = d.rw_release(&out("read")).unwrap();
    assert!(matches!(r, RwRelease::Absent));
    assert!(!d.rw_released(&r, None).unwrap().released);
    assert!(matches!(d.rw_release(&out("write")).unwrap(), RwRelease::Write(_, Some(_))));
    assert_eq!(
        refused(d.rw_release(&out("both"))),
        (400, "mode must be `read` or `write`, got `both`".to_string())
    );
}

#[test]
fn fair_locks_are_kept_by_fence() {
    let mut d = demo();
    let req = RwAcquireRequest { key: "k".into(), ttl_ms: None };
    let h = d.fair_lock(&req).unwrap().complete(Ok((1, 6)));
    let (answer, _) = d.fair_locked(&req, h);
    assert_eq!(answer.unwrap().fence, 6);
    assert_eq!(refused(d.fair_locked(&req, Err(held("k"))).0).0, 500);
    let out = FenceReleaseRequest { key: "k".into(), fence: 6 };
    let (h, call) = d.fair_release(&out).expect("kept");
    assert_eq!(script(&call.unwrap().lock), Script::FairRelease);
    assert!(d.fair_released(Some(&h), Some(Ok(0))).unwrap().released);
    assert!(d.fair_release(&out).is_none());
    assert!(!d.fair_released(None, None).unwrap().released);
}

#[test]
fn permits_are_kept_by_fence() {
    let mut d = demo();
    let req = SemaphoreAcquireRequest { key: "k".to_string(), max_permits: 2, ttl_ms: Some(1) };
    assert_eq!(d.semaphore_acquire(&req).ttl.unwrap().as_millis(), 10);
    let (outcome, displaced) = d.semaphore_acquired(&req, Ok(FencingToken::new(2)));
    assert_eq!(outcome.unwrap(), SemaphoreOutcome::Acquired { fence: 2 });
    assert!(displaced.is_none());
    let (outcome, displaced) = d.semaphore_acquired(&req, Ok(FencingToken::new(2)));
    assert!(outcome.is_ok());
    assert_eq!(displaced.expect("same name").fence.value(), 2);
    let (outcome, _) = d.semaphore_acquired(&req, Err(held("k")));
    assert_eq!(outcome.unwrap(), SemaphoreOutcome::Full);
    let (outcome, _) = d.semaphore_acquired(&req, Err(backend("down: ", "x")));
    assert_eq!(refused(outcome), (502, backend("down: ", "x").message()));
    let out = FenceReleaseRequest { key: "k".to_string(), fence: 2 };
    assert_eq!(d.semaphore_release(&out).expect("kept").key, "k");
    assert!(d.semaphore_release(&out).is_none());
    assert!(d.semaphore_released(Some(Ok(()))).unwrap().released);
    assert!(!d.semaphore_released(None).unwrap().released);
    assert_eq!(refused(d.semaphore_released(Some(Err(lost("k", 2))))).0, 500);
}

#[test]
fn multi_locks_are_kept_by_identity() {
    let mut d = demo();
    let req = |keys: &[&str]| MultiAcquireRequest {
        keys: keys.iter().map(|k| k.to_string()).collect(),
        ttl_ms: None,
        wait_ms: Some(40_000),
    };
    let m = d.multi_lock(&req(&["b", "a"]), 5).expect("valid");
    assert_eq!(m.sorted, ["a", "b"]);
    assert_eq!(m.waiting.deadline, Some(30_000_000_005));
    assert_eq!(refused(d.multi_lock(&req(&[]), 0)), (400, "keys must not be empty".to_string()));
    assert_eq!(refused(d.multi_lock(&req(&["a", "a"]), 0)).0, 400);
    let handle = MultiLockHandle { handles: vec![grant("a", 1), grant("b", 2)] };
    let id = match d.multi_locked(Ok(handle)).unwrap() {
        MultiOutcome::Acquired { multi_id, locks } => {
            let told: Vec<(String, u64)> = locks.into_iter().map(|l| (l.key, l.fence)).collect();
            assert_eq!(told, [("a".to_string(), 1), ("b".to_string(), 2)]);
            multi_id
        }
        other => panic!("{other:?}"),
    };
    assert!(matches!(d.multi_locked(Err(timeout("x"))).unwrap(), MultiOutcome::Timeout));
    assert_eq!(refused(d.multi_locked(Err(invalid("x")))).0, 400);
    let out = MultiReleaseRequest { multi_id: id };
    let (h, sent) = d.multi_release(&out).expect("kept");
    assert_eq!(sent.len(), 2);
    assert!(d.multi_released(Some(&h), &sent, vec![Ok(1), Ok(1)]).unwrap().released);
    assert_eq!(refused(d.multi_released(Some(&h), &sent, vec![Ok(1), Ok(0)])).0, 500);
    assert!(d.multi_release(&out).is_none());
    assert!(!d.multi_released(None, &vec![], vec![]).unwrap().released);
}

#[test]
fn latches_are_created_and_counted() {
    let d = demo();
    assert!(d.latch_create(&LatchCreateRequest { key: "l".into(), count: 2 }).is_ok());
    assert_eq!(
        refused(d.latch_create(&LatchCreateRequest { key: "l".into(), count: 0 })).0,
        400
    );
    assert_eq!(script(&d.latch_adopt("l").unwrap()), Script::LatchInit);
    let l: RedisCountDownLatch = d.latch_created("l", Ok(1)).unwrap();
    assert_eq!(script(&d.latch_count_down(&l)), Script::LatchCountDown);
    assert_eq!(script(&d.latch_count(&l)), Script::LatchGet);
    assert_eq!(d.latch_counted(&l, Ok(1)).unwrap().count, 1);
    assert_eq!(refused(d.latch_counted(&l, Ok(-1))).0, 500);
    let w = d.latch_wait(&LatchWaitRequest { key: "l".into(), timeout_ms: None }, &l, 0);
    assert_eq!(w.waiting.deadline, Some(5_000_000_000));
    assert!(d.latch_waited(Ok(())).zero);
    assert!(!d.latch_waited(Err(timeout("l"))).zero);
}

fn predicate(op: &str, value: Option<&str>, number: Option<&str>) -> PredicateSpec {
    PredicateSpec {
        field: "f".into(),
        op: op.into(),
        value: value.map(|v| v.to_string()),
        number: number.map(|v| v.to_string()),
    }
}

#[test]
fn predicates_are_compiled_or_refused() {
    let d = demo();
    let req = |predicates| SemanticAcquireRequest { key: "k".into(), ttl_ms: None, predicates };
    let p = d
        .semantic_acquire(&req(vec![
            predicate("eq", None, None),
            predicate("gt", Some("1.50"), Some("1.5")),
            predicate("absent", None, None),
        ]))
        .expect("valid");
    let lua: Vec<String> = p.guard.preds.iter().map(|p| p.to_lua()).collect();
    assert_eq!(lua[0], "(redis.call('HGET', KEYS[3], 'f') == '')");
    assert_eq!(lua[1], "(tonumber(redis.call('HGET', KEYS[3], 'f')) ~= nil and tonumber(redis.call('HGET', KEYS[3], 'f')) > 1.5)");
    assert_eq!(
        refused(d.semantic_acquire(&req(vec![]))),
        (400, "at least one predicate required".to_string())
    );
    for (number, lua) in [("inf", "math.huge"), ("-inf", "-math.huge"), ("NaN", "(0/0)")] {
        let p = d.semantic_acquire(&req(vec![predicate("gt", Some(number), Some(number))]));
        let p = p.expect("a number");
        assert!(!p.guard.watchdog);
        assert!(p.guard.preds[0].to_lua().ends_with(&format!("> {lua})")));
    }
    for number in [None, Some("1 or true")] {
        assert_eq!(
            refused(d.semantic_acquire(&req(vec![predicate("gt", Some("x"), number)]))),
            (400, "predicate `f` needs numeric value".to_string())
        );
    }
    assert_eq!(
        refused(d.semantic_acquire(&req(vec![
            predicate("lt", None, None),
            predicate("gt", None, None)
        ]))),
        (400, "unknown predicate op `lt` (eq|gt|absent)".to_string())
    );
}

#[test]
fn semantic_denials_are_told_apart() {
    let d = demo();
    let (step, seen) = d.semantic_acquired(Ok(grant("k", 3)));
    assert!(matches!(
        step,
        SemanticStep::Answer(Ok(SemanticOutcome::Granted { fence: 3, .. }))
    ));
    assert_eq!(seen, Observation { ok: true, denied: false });
    let (step, seen) = d.semantic_acquired(Err(held("k")));
    assert!(matches!(step, SemanticStep::Describe));
    assert_eq!(seen, Observation { ok: true, denied: true });
    assert!(matches!(d.semantic_denied(Ok((true, 1, 1))), Ok(SemanticOutcome::Held)));
    assert!(matches!(
        d.semantic_denied(Ok((false, 1, 0))),
        Ok(SemanticOutcome::PredicatesFailed)
    ));
    let (step, _) = d.semantic_acquired(Err(backend("x", "")));
    assert!(matches!(step, SemanticStep::Answer(Err(_))));
}

#[test]
fn protected_data_is_read_and_written() {
    let d = demo();
    let req = SemanticDataRequest { key: "k:data".into(), field: "f".into(), value: "v".into() };
    assert_eq!(line(&d.semantic_set_data(&req)), "HSET k:data f v");
    assert!(d.semantic_data_set(Ok(())).is_ok());
    assert_eq!(
        refused(d.semantic_data_set(Err("x".into()))),
        (502, "backend error: hset failed: x".to_string())
    );
    assert_eq!(line(&d.semantic_get_data("k:data")), "HGETALL k:data");
    let got = d.semantic_data_got(Ok(vec![("f".into(), "v".into())])).unwrap();
    assert_eq!(got.fields.len(), 1);
    assert_eq!(d.data_unreachable("x").message, "backend error: data connect: x");
}

#[test]
fn testaments_reach_the_successor_as_text() {
    let d = demo();
    let req = TestamentSetRequest {
        key: "k".into(),
        token: "t".into(),
        ttl_ms: None,
        payload: "checkpoint=4172;grüße".into(),
    };
    let i = d.testament_set(&req);
    let bytes = match &i.args[1] {
        Arg::Bytes(b) => b.clone(),
        other => panic!("{other:?}"),
    };
    assert_eq!(bytes, "checkpoint=4172;grüße".as_bytes());
    assert!(d.testament_stored(&req, Ok(1)).unwrap().stored);
    assert_eq!(refused(d.testament_stored(&req, Ok(0))).0, 500);
    let i = d.testament_read("k");
    assert_eq!(script(&i), Script::WillGet);
    assert_eq!(i.keys, ["k", "k:will"]);
    assert_eq!(
        d.testament_told(Ok(Some(bytes))).unwrap().payload.as_deref(),
        Some("checkpoint=4172;grüße")
    );
    assert_eq!(
        d.testament_told(Ok(Some(vec![b'a', 0xff]))).unwrap().payload.as_deref(),
        Some("a\u{fffd}")
    );
    assert_eq!(d.testament_told(Ok(None)).unwrap().payload, None);
}

#[test]
fn events_are_rendered_as_json() {
    assert_eq!(
        render_event(&LockEvent::Acquired { version: 12 }),
        r#"{"event":"acquired","version":12}"#
    );
    assert_eq!(
        render_event(&LockEvent::Freed { version: 0 }),
        r#"{"event":"freed","version":0}"#
    );
}
