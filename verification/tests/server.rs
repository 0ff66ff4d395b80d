//! Tables, quotas, principals, sessions, watching and the service.

use palisade::auth::{Acl, Permission, Principal, PrincipalConfig, WatcherGuard};
use palisade::error::{held, timeout, Error};
use palisade::lattice::Tier;
use palisade::owner::OwnerId;
use palisade::registry::HeldRegistry;
use palisade::service::{
    options_from_pb, GrantOutcome, LockOptionsPb, OwnedOutcome, PalisadeService, RenewRequest,
    ServiceConfig, TryLockForRequest, TryLockRequest, UnlockRequest,
};
use palisade::sessions::{count_released, HbResult, SessionBook};
use palisade::single::{RedisLockHandle, RedisLockManager};
use palisade::span::Span;
use palisade::status::{Code, Status};
use palisade::table::Table;
use palisade::watch_hub::{LockEvent, PollerStep, WatchHub};

const MS: u128 = 1_000_000;

fn manager() -> RedisLockManager {
    RedisLockManager { default_ttl: Span::from_secs(30), watchdog_default: false }
}

fn principal(name: &str, token: &str) -> PrincipalConfig {
    PrincipalConfig {
        name: name.into(),
        token: token.into(),
        key_prefixes: vec!["ci/".into()],
        can_lock: true,
        can_unlock: true,
        can_extend: true,
        can_watch: true,
        can_admin: false,
        max_keys: 1,
        max_watchers: 2,
    }
}

fn acl() -> Acl {
    Acl::from_json(Ok(vec![principal("ci", "s1")])).expect("valid")
}

fn status<T: std::fmt::Debug>(r: Result<T, Status>) -> (Code, String) {
    let s = r.unwrap_err();
    (s.code, s.message)
}

#[test]
fn tables_keep_one_value_per_name() {
    let mut t: Table<u32> = Table::new();
    assert_eq!(t.insert("a".into(), 1), None);
    assert_eq!(t.insert("b".into(), 2), None);
    assert_eq!(t.insert("a".into(), 3), Some(1));
    assert_eq!(t.get("a"), Some(&3));
    assert_eq!(t.get("c"), None);
    assert!(t.contains("b"));
    assert_eq!(t.len(), 2);
    let mut names = t.keys();
    names.sort();
    assert_eq!(names, ["a", "b"]);
    assert_eq!(t.remove("a"), Some(3));
    assert_eq!(t.remove("a"), None);
    assert_eq!(t.len(), 1);
}

#[test]
fn quotas_count_keys_per_principal() {
    let mut r = HeldRegistry::new();
    assert!(r.try_acquire("a", "p", 2));
    assert!(r.try_acquire("b", "p", 2));
    assert!(!r.try_acquire("c", "p", 2));
    assert!(r.try_acquire("a", "p", 2));
    assert!(r.try_acquire("c", "q", 1));
    assert!(r.try_acquire("d", "p", 0));
    assert_eq!(r.release("c").as_deref(), Some("q"));
    assert_eq!(r.release("c"), None);
    assert!(!r.try_acquire("e", "p", 2));
    assert_eq!(r.release("a").as_deref(), Some("p"));
    assert_eq!(r.release("b").as_deref(), Some("p"));
    assert!(r.try_acquire("e", "p", 2));
}

#[test]
fn permissions_are_scoped_by_prefix() {
    let p = Acl::make_principal(principal("ci", "s1"));
    assert_eq!(p.name(), "ci");
    assert_eq!(p.max_keys(), 1);
    assert!(p.check_lock("ci/x").is_ok());
    assert!(p.check_unlock("ci/").is_ok());
    assert!(p.check_extend("ci/x").is_ok());
    assert!(p.may("ci/x", Permission::Watch).is_ok());
    assert_eq!(
        status(p.check_lock("prod/x")),
        (
            Code::PermissionDenied,
            "principal `ci` may not touch keys outside its prefixes (`prod/x`)".to_string()
        )
    );
    assert_eq!(
        status(p.check_admin("ci/x")),
        (Code::PermissionDenied, "principal `ci` lacks permission for `ci/x`".to_string())
    );
    let full = Principal { held_keys: 1, ..p };
    assert_eq!(
        status(full.check_lock("ci/x")),
        (Code::ResourceExhausted, "principal `ci` hit max_keys=1".to_string())
    );
}

#[test]
fn watcher_slots_are_limited_and_freed() {
    let mut a = acl();
    let header = Some("Bearer s1");
    let g1 = a.check_watch(header, "ci/x").expect("slot");
    let _g2 = a.check_watch(header, "ci/x").expect("slot");
    assert_eq!(
        status(a.check_watch(header, "ci/x")),
        (Code::ResourceExhausted, "principal `ci` hit max_watchers=2".to_string())
    );
    a.end_watch(g1);
    assert!(a.check_watch(header, "ci/x").is_ok());
    a.end_watch(WatcherGuard { token: None });
    a.end_watch(WatcherGuard { token: Some("nobody".into()) });
    assert!(a.check_watch(header, "ci/x").is_err());
    let mut p = Acl::make_principal(principal("ci", "s1"));
    assert!(p.check_watch("ci/x").is_ok());
    assert_eq!(p.watchers, 1);
    p.note_watcher_denial();
    assert_eq!(p.watchers, 0);
}

#[test]
fn callers_are_resolved_by_bearer_token() {
    let a = acl();
    assert_eq!(a.resolve(Some("Bearer s1")).expect("known").name(), "ci");
    for header in [None, Some("s1"), Some("bearer s1")] {
        assert_eq!(
            status(a.resolve(header)),
            (Code::Unauthenticated, "missing authorization: Bearer <token>".to_string())
        );
    }
    assert_eq!(
        status(a.resolve(Some("Bearer s2"))),
        (Code::Unauthenticated, "unknown bearer token".to_string())
    );
    let open = Acl::open();
    let p = open.resolve(None).expect("anonymous");
    assert_eq!(p.name(), "anonymous");
    assert!(p.check_admin("anything").is_ok());
    assert!(p.check_lock("").is_ok());
}

#[test]
fn principals_need_tokens() {
    let e = Acl::from_json(Ok(vec![principal("a", "t"), principal("b", "")])).unwrap_err();
    assert_eq!(e.message(), "invalid config: principal `b` has empty token");
    let e = Acl::from_json(Err("eof".into())).unwrap_err();
    assert_eq!(e.message(), "invalid config: bad acl json: eof");
    let e = Acl::load_file("\"x.json\"", Err("no such file".into())).unwrap_err();
    assert_eq!(
        e.message(),
        "invalid config: cannot read acl file \"x.json\": no such file"
    );
    let a = Acl::load_file("x", Ok(Ok(vec![principal("a", "t"), principal("b", "t")]))).unwrap();
    assert_eq!(a.resolve(Some("Bearer t")).unwrap().name(), "b");
}

#[test]
fn sessions_live_by_their_heartbeats() {
    let mut b = SessionBook::new();
    let t = b.register_as(OwnerId::from_bits(1), "c".into(), Span::from_millis(1000), 0);
    assert_eq!(t, "00000000-0000-0000-0000-000000000001");
    assert_eq!(b.len(), 1);
    assert_eq!(b.heartbeat("nobody", 0), HbResult::Unknown);
    assert_eq!(b.heartbeat(&t, 49 * MS), HbResult::RateLimited);
    assert_eq!(b.heartbeat(&t, 50 * MS), HbResult::Accepted);
    assert_eq!(b.heartbeat(&t, 99 * MS), HbResult::RateLimited);
    assert_eq!(b.heartbeat(&t, 384 * MS), HbResult::Accepted);
    assert!(b.sweep_once(1384 * MS).is_empty());
    assert_eq!(b.sweep_once(1384 * MS + 1).len(), 1);
    assert_eq!(b.heartbeat(&t, 1385 * MS), HbResult::Unknown);
    assert_eq!(b.len(), 0);
}

#[test]
fn sweeps_hand_out_the_locks_of_dead_sessions_only() {
    let mut b = SessionBook::new();
    let dead = b.register("dead".into(), Span::from_millis(100), 0);
    let live = b.register("live".into(), Span::from_millis(1000), 0);
    assert_ne!(dead, live);
    assert!(b.bind(&dead, "k1", "t1", 0));
    assert!(b.bind(&dead, "k2", "t2", 0));
    assert!(b.bind(&live, "k3", "t3", 0));
    assert!(!b.bind("nobody", "k", "t", 0));
    let out = b.sweep_once(200 * MS);
    assert_eq!(out.len(), 1);
    assert_eq!(out[0].client_id, "dead");
    assert_eq!(
        out[0].locks,
        [("k1".to_string(), "t1".to_string()), ("k2".to_string(), "t2".to_string())]
    );
    assert!(b.sweep_once(200 * MS).is_empty());
    assert_eq!(b.close(&live), [("k3".to_string(), "t3".to_string())]);
    assert!(b.close(&live).is_empty());
}

#[test]
fn only_freed_locks_are_counted() {
    let results: Vec<Result<bool, Error>> = vec![Ok(true), Ok(false), Err(held("k")), Ok(true)];
    assert_eq!(count_released(&results), 2);
    assert_eq!(count_released(&vec![]), 0);
}

#[test]
fn keys_have_one_poller_and_tell_changes() {
    let mut h = WatchHub::new();
    let first = h.subscribe("k");
    assert!(first.start_poller);
    assert_eq!(first.current, None);
    assert_eq!(h.probed("k", Ok((false, 0))), Some(LockEvent::Freed { version: 0 }));
    assert_eq!(h.probed("k", Ok((false, 0))), None);
    assert_eq!(h.probed("k", Ok((true, 1))), Some(LockEvent::Acquired { version: 1 }));
    assert_eq!(h.probed("k", Ok((true, 1))), None);
    assert_eq!(h.probed("k", Err(held("k"))), None);
    let second = h.subscribe("k");
    assert!(!second.start_poller);
    assert_eq!(second.current, Some(LockEvent::Acquired { version: 1 }));
    h.unsubscribe("k");
    assert_eq!(h.poll("k"), PollerStep::Probe);
    h.unsubscribe("k");
    assert_eq!(h.poll("k"), PollerStep::Retire);
    assert_eq!(h.probed("k", Ok((false, 1))), None);
    assert!(h.subscribe("k").start_poller);
}

#[test]
fn tiers_have_ranks_and_names() {
    let tiers = [Tier::Normal, Tier::Elevated, Tier::Critical, Tier::Siege];
    let names = ["NORMAL", "ELEVATED", "CRITICAL", "SIEGE"];
    for i in 0..4 {
        assert_eq!(tiers[i].as_u8() as usize, i);
        assert_eq!(tiers[i].as_str(), names[i]);
    }
    assert!(Tier::Elevated < Tier::Critical);
}

fn service() -> PalisadeService {
    PalisadeService::new(manager(), ServiceConfig::default())
}

fn request(key: &str, session: &str) -> TryLockRequest {
    TryLockRequest {
        key: key.into(),
        options: Some(LockOptionsPb { ttl_ms: 2_000, watchdog: None }),
        session: session.into(),
    }
}

fn grant(key: &str, fence: u64) -> RedisLockHandle {
    manager().build_handle_from_parts(key, OwnerId::from_bits(1), fence, Span::from_secs(2))
}

#[test]
fn leases_are_limited_by_the_server() {
    let c = ServiceConfig::default();
    assert_eq!(options_from_pb(None, &c).unwrap().ttl.unwrap().as_secs(), 30);
    let zero = LockOptionsPb { ttl_ms: 0, watchdog: Some(true) };
    let o = options_from_pb(Some(zero), &c).unwrap();
    assert_eq!((o.ttl.unwrap().as_secs(), o.watchdog), (30, Some(true)));
    let long = LockOptionsPb { ttl_ms: 600_001, watchdog: None };
    assert_eq!(
        status(options_from_pb(Some(long), &c)),
        (
            Code::InvalidArgument,
            "ttl 600.001s exceeds server maximum 600s".to_string()
        )
    );
}

#[test]
fn draining_servers_refuse_grants() {
    let mut s = service();
    s.set_ready(false);
    assert_eq!(
        status(s.try_lock(None, &request("k", ""))),
        (Code::Unavailable, "server is draining".to_string())
    );
    *s.ready_handle() = true;
    assert!(s.try_lock(None, &request("k", "")).is_ok());
    assert!(s.check_ready().is_ok());
    assert_eq!(s.session_book().len(), 0);
    assert_eq!(s.manager().default_ttl.as_secs(), 30);
}

#[test]
fn grants_are_handed_to_the_client() {
    let mut s = service();
    let (a, p) = s.try_lock(None, &request("k", "")).expect("admitted");
    assert_eq!(p.ttl.as_millis(), 2_000);
    let end = s.try_locked(&a, Ok(grant("k", 7)), 0);
    assert!(end.undo.is_none());
    match end.answer {
        Ok(GrantOutcome::Granted { token, fencing_token, ttl_ms }) => {
            assert_eq!(token, "00000000-0000-0000-0000-000000000001");
            assert_eq!((fencing_token, ttl_ms), (7, 2_000));
        }
        other => panic!("{other:?}"),
    }
    assert!(matches!(
        s.try_locked(&a, Err(held("k")), 0).answer,
        Ok(GrantOutcome::Held { .. })
    ));
    assert_eq!(
        status(s.try_locked(&a, Err(timeout("k")), 0).answer).0,
        Code::Internal
    );
    let req = TryLockForRequest {
        key: "k".into(),
        options: None,
        session: String::new(),
        wait_ms: 150,
    };
    let (a, wait) = s.try_lock_for(None, &req).expect("admitted");
    assert_eq!(wait.as_millis(), 150);
    assert!(matches!(
        s.try_locked_for(&a, Err(timeout("k")), 0).answer,
        Ok(GrantOutcome::TimedOut { .. })
    ));
    let tiny = TryLockRequest {
        key: "k".into(),
        options: Some(LockOptionsPb { ttl_ms: 1, watchdog: None }),
        session: String::new(),
    };
    assert_eq!(status(s.try_lock(None, &tiny)).0, Code::Internal);
}

#[test]
fn grants_under_unknown_sessions_are_undone() {
    let mut s = service();
    let (a, _) = s.try_lock(None, &request("k", "nobody")).expect("admitted");
    let end = s.try_locked(&a, Ok(grant("k", 7)), 0);
    assert_eq!(end.undo.expect("undone").release.keys[0], "k");
    assert_eq!(
        status(end.answer),
        (Code::NotFound, "unknown session".to_string())
    );
    let opened = s.register_session("c".into(), 0, 0);
    assert_eq!(opened.ttl_ms, 10_000);
    let (a, _) = s.try_lock(None, &request("k", &opened.session_token)).expect("admitted");
    assert!(s.try_locked(&a, Ok(grant("k", 8)), 5).answer.is_ok());
    let closing = s.close_session(&opened.session_token);
    assert_eq!(closing.len(), 1);
    assert_eq!(closing[0].clear_will.keys, ["k", "k:will"]);
    assert_eq!(closing[0].release.keys[0], "k");
    assert_eq!(s.session_closed(&vec![Ok(true)]), 1);
    assert_eq!(s.register_session("c".into(), 900_000, 0).ttl_ms, 600_000);
}

#[test]
fn quotas_hold_over_grants_and_unlocks() {
    let mut s = service().with_acl(acl());
    let header = Some("Bearer s1");
    let (a, _) = s.try_lock(header, &request("ci/a", "")).expect("admitted");
    assert!(s.try_locked(&a, Ok(grant("ci/a", 1)), 0).answer.is_ok());
    let (b, _) = s.try_lock(header, &request("ci/b", "")).expect("admitted");
    let end = s.try_locked(&b, Ok(grant("ci/b", 2)), 0);
    assert!(end.undo.is_some());
    let line = end.answer.as_ref().unwrap_err().audit.as_ref().expect("audited");
    assert_eq!((line.principal.as_str(), line.action.as_str()), ("ci", "lock"));
    assert_eq!((line.key.as_str(), line.outcome.as_str()), ("ci/b", "denied"));
    assert_eq!(
        status(end.answer),
        (Code::ResourceExhausted, "principal `ci` hit max_keys".to_string())
    );
    let un = UnlockRequest { key: "ci/a".into(), token: "t".into() };
    let farewell = s.unlock(header, &un).expect("let in");
    assert_eq!(farewell.clear_will.keys, ["ci/a", "ci/a:will"]);
    assert_eq!(farewell.release.keys, ["ci/a", "{ci/a}:fence"]);
    assert_eq!(
        s.unlocked(&un, Ok(0)).unwrap(),
        OwnedOutcome::Lost { fencing_token: 0 }
    );
    assert!(s.try_locked(&b, Ok(grant("ci/b", 3)), 0).answer.is_err());
    assert_eq!(s.unlocked(&un, Ok(1)).unwrap(), OwnedOutcome::Done);
    assert!(s.try_locked(&b, Ok(grant("ci/b", 4)), 0).answer.is_ok());
    assert_eq!(status(s.unlocked(&un, Err("x".into()))).0, Code::Internal);
    assert_eq!(status(s.unlock(None, &un)).0, Code::Unauthenticated);
}

#[test]
fn renewals_are_checked_against_the_maximum() {
    let s = service();
    let req = |ttl_ms| RenewRequest { key: "k".into(), token: "t".into(), ttl_ms };
    assert!(s.extend(None, &req(5_000)).is_ok());
    assert_eq!(status(s.extend(None, &req(700_000))).0, Code::InvalidArgument);
    assert_eq!(
        status(s.extend(None, &req(1))),
        (
            Code::Internal,
            "invalid config: extend ttl 1ms is below the 10ms floor".to_string()
        )
    );
    assert_eq!(s.extended(Ok(1)).unwrap(), OwnedOutcome::Done);
    assert_eq!(s.extended(Ok(0)).unwrap(), OwnedOutcome::Lost { fencing_token: 0 });
    assert!(s.extended(Err("x".into())).is_err());
}

#[test]
fn heartbeats_are_answered_in_words() {
    let mut s = service();
    let opened = s.register_session("c".into(), 2_000, 0);
    assert!(s.heartbeat(&opened.session_token, 700 * MS).is_ok());
    assert_eq!(
        status(s.heartbeat(&opened.session_token, 701 * MS)),
        (
            Code::ResourceExhausted,
            "heartbeat exceeds rate floor (ttl/20); use the documented ttl/3 cadence".to_string()
        )
    );
    assert_eq!(
        status(s.heartbeat("nobody", 0)),
        (Code::NotFound, "unknown or expired session".to_string())
    );
}

#[test]
fn watching_takes_a_slot_and_describing_none() {
    let mut s = service().with_acl(acl());
    let header = Some("Bearer s1");
    let (g, sub) = s.watch(header, "ci/k").expect("slot");
    assert!(sub.start_poller);
    let (_, sub) = s.watch(header, "ci/k").expect("slot");
    assert!(!sub.start_poller);
    assert_eq!(status(s.watch(header, "ci/k")).0, Code::ResourceExhausted);
    for _ in 0..3 {
        assert!(s.describe_key(header, "ci/k").is_ok());
    }
    assert_eq!(status(s.describe_key(header, "other")).0, Code::PermissionDenied);
    s.watch_ended(g, "ci/k");
    assert!(s.watch(header, "ci/k").is_ok());
    assert_eq!(s.described(Ok((true, 3, 4))).unwrap(), (true, 3, 4));
    assert_eq!(status(s.described(Err(held("k")))).0, Code::Internal);
}

#[test]
fn forced_unlocks_free_the_slot_of_the_holder() {
    let mut s = service();
    let (a, _) = s.try_lock(None, &request("k", "")).expect("admitted");
    assert!(s.try_locked(&a, Ok(grant("k", 1)), 0).answer.is_ok());
    let (who, c) = s.unlock_force(None, "k").expect("admin");
    assert_eq!((who.as_str(), c.name.as_str()), ("anonymous", "DEL"));
    let f = s.force_unlocked(&who, "k", Ok(1)).expect("done");
    assert!(f.released);
    assert_eq!(f.victim.as_deref(), Some("anonymous"));
    assert_eq!(f.audit.outcome, "released");
    let f = s.force_unlocked(&who, "k", Ok(0)).expect("done");
    assert_eq!((f.released, f.victim), (false, None));
    assert_eq!(f.audit.outcome, "key-absent");
    assert_eq!(f.audit.action, "force-unlock");
    assert!(s.force_unlocked(&who, "k", Err("x".into())).is_err());
    let guarded = service().with_acl(acl());
    let denied = guarded.unlock_force(Some("Bearer s1"), "ci/k").unwrap_err();
    let line = denied.audit.expect("audited");
    assert_eq!((line.principal.as_str(), line.key.as_str()), ("ci", "ci/k"));
    assert_eq!((line.action.as_str(), line.outcome.as_str()), ("admin", "denied"));
    assert!(guarded.unlock_force(None, "ci/k").unwrap_err().audit.is_none());
    assert_eq!(
        status(guarded.unlock_force(Some("Bearer s1"), "ci/k")).0,
        Code::PermissionDenied
    );
}

#[test]
fn held_keys_are_listed_for_administrators() {
    let s = service();
    let (audit, scan) = s.list_locks(None, "ci/").expect("admin");
    assert_eq!(audit.action, "list-locks");
    assert_eq!(scan.prefix, "ci/");
    let states = s.listed(Ok(vec![("ci/a".into(), 5)])).expect("listed");
    assert_eq!((states[0].key.as_str(), states[0].held, states[0].ttl_ms), ("ci/a", true, 5));
    assert!(s.listed(Err(held("k"))).is_err());
}
