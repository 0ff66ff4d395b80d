//! The mutex on one store instance.

use palisade::command::{Arg, Command, Invocation, Program, Script, ScriptText};
use palisade::config::RedisConfig;
use palisade::error::Error;
use palisade::options::LockOptions;
use palisade::owner::OwnerId;
use palisade::scan::{pattern_for, Scan, ScanStep};
use palisade::single::{
    fence_key_for, renewal_outcome, PendingLock, RedisLockHandle, RedisLockManager,
};
use palisade::slots::own_tag_of;
use palisade::span::Span;
use palisade::watchdog::Renewal;

fn manager() -> RedisLockManager {
    RedisLockManager::connect(&RedisConfig::new("redis://127.0.0.1:6379"), Ok(()))
        .expect("connected")
}

fn handle() -> RedisLockHandle {
    manager().build_handle_from_parts("orders:42", OwnerId::from_bits(1), 9, Span::from_secs(30))
}

fn shown(args: &[Arg]) -> Vec<String> {
    args.iter()
        .map(|a| match a {
            Arg::Text(t) => t.clone(),
            Arg::Int(n) => n.to_string(),
            Arg::Bytes(b) => format!("{b:?}"),
        })
        .collect()
}

fn script(i: &Invocation) -> Script {
    match &i.program {
        Program::Known(s) => *s,
        other => panic!("{other:?}"),
    }
}

fn line(c: &Command) -> String {
    format!("{} {}", c.name, shown(&c.args).join(" "))
}

const TOKEN: &str = "00000000-0000-0000-0000-000000000001";

#[test]
fn fence_key_shares_hash_slot() {
    assert_eq!(fence_key_for("orders:42"), "{orders:42}:fence");
}

#[test]
fn fence_keys_keep_the_tag_of_their_lock() {
    assert_eq!(own_tag_of("{user1}:cart").as_deref(), Some("user1"));
    assert_eq!(own_tag_of("a{}{b}"), None);
    assert_eq!(own_tag_of("a{b"), None);
    assert_eq!(fence_key_for("{user1}:cart"), "{user1}:{user1}:cart::fence");
    assert_eq!(fence_key_for("a{b"), "{a{b}:fence");
    assert_ne!(fence_key_for("a"), fence_key_for("{a}"));
    assert_ne!(fence_key_for("a}:{a"), fence_key_for("{a}"));
    for key in ["orders:42", "{user1}:cart", "x{y}z{w}", "a{b"] {
        let tag = |k: &str| own_tag_of(k).unwrap_or(k.to_string());
        assert_eq!(tag(&fence_key_for(key)), tag(key));
    }
}

#[test]
fn configurations_are_validated_before_dialling() {
    let c = RedisConfig::new("redis://h:1");
    assert_eq!(c.url(), "redis://h:1");
    assert_eq!(c.default_ttl().as_secs(), 30);
    assert_eq!(c.response_timeout().as_secs(), 5);
    assert!(!c.watchdog());
    let c = c
        .with_default_ttl(Span::from_secs(3))
        .with_watchdog(true)
        .with_response_timeout(Span::from_secs(1));
    let m = RedisLockManager::connect(&c, Ok(())).expect("connected");
    assert_eq!(m.default_ttl.as_secs(), 3);
    assert!(m.watchdog_default);

    let blank = RedisConfig::new("  \t");
    assert_eq!(
        RedisLockManager::connect(&blank, Ok(())).unwrap_err().message(),
        "invalid config: redis url is empty"
    );
    let short = RedisConfig::new("redis://h:1").with_default_ttl(Span::from_millis(2));
    assert_eq!(
        short.validate().unwrap_err().message(),
        "invalid config: default ttl 2ms is below the 10ms floor"
    );
    let c = RedisConfig::new("nonsense");
    assert_eq!(
        RedisLockManager::prepare(&c).unwrap_err().message(),
        "invalid config: bad redis url `nonsense`: Redis URL did not parse- InvalidClientConfig"
    );
    assert_eq!(
        RedisLockManager::connect(&c, Ok(())).unwrap_err().message(),
        RedisLockManager::prepare(&c).unwrap_err().message()
    );
    let c = RedisConfig::new("redis://h/first");
    assert_eq!(
        RedisLockManager::prepare(&c).unwrap_err().message(),
        "invalid config: bad redis url `redis://h/first`: Invalid database number- InvalidClientConfig"
    );
    assert_eq!(
        RedisLockManager::connected(&c, Some("why".into()), Ok(())).unwrap_err().message(),
        "invalid config: bad redis url `redis://h/first`: why"
    );
    let c = RedisConfig::new("redis://h:1");
    assert!(RedisLockManager::prepare(&c).is_ok());
    assert_eq!(
        RedisLockManager::connect(&c, Err("why".into())).unwrap_err().message(),
        "backend error: connect redis://h:1: why"
    );
}

#[test]
fn acquisitions_send_token_lease_and_fence_lease() {
    let p = PendingLock {
        key: "orders:42".into(),
        owner: OwnerId::from_bits(1),
        ttl: Span::from_millis(1500),
        watchdog: false,
    };
    let i = p.invocation();
    assert_eq!(script(&i), Script::Acquire);
    assert_eq!(i.keys, ["orders:42", "{orders:42}:fence"]);
    assert_eq!(shown(&i.args), [TOKEN, "1500", "15000"]);
    assert!(matches!(Script::Acquire.text(), ScriptText::File("acquire.lua")));
}

#[test]
fn mutual_exclusion_shows_as_held() {
    let m = manager();
    for status in [1, 2] {
        let h = m.try_lock("k").expect("valid").complete(Ok((status, 7))).expect("grant");
        assert_eq!(h.key(), "k");
        assert_eq!(h.fence().value(), 7);
        assert!(!h.is_lost());
    }
    for status in [0, 3, -1] {
        match m.try_lock("k").expect("valid").complete(Ok((status, 0))) {
            Err(Error::Held { key }) => assert_eq!(key, "k"),
            other => panic!("{other:?}"),
        }
    }
    assert_eq!(
        m.try_lock("k").expect("valid").complete(Err("gone".into())).unwrap_err().message(),
        "backend error: acquire script failed: gone"
    );
}

#[test]
fn acquisitions_have_their_own_owner_and_watchdog() {
    let m = manager();
    let a = m.try_lock("k").expect("valid");
    let b = m.try_lock("k").expect("valid");
    assert_ne!(a.owner, b.owner);
    assert!(!a.watchdog);
    let o = LockOptions::new().with_watchdog(true);
    assert!(m.try_lock_with("k", &o).expect("valid").watchdog);
    let p = m.try_lock_as("k", OwnerId::from_bits(1), &o).expect("valid");
    assert_eq!(shown(&p.invocation().args), [TOKEN, "30000", "300000"]);
}

#[test]
fn leases_default_to_the_configured_one() {
    let c = RedisConfig::new("valkey://h:1").with_default_ttl(Span::from_secs(7));
    let m = RedisLockManager::connect(&c, Ok(())).expect("connected");
    let p = m.try_lock_with("k", &LockOptions::default()).expect("valid");
    assert_eq!(p.ttl.as_millis(), 7_000);
    assert_eq!(m.try_lock("k").expect("valid").ttl.as_millis(), 7_000);
    let p = m.try_lock_with("k", &LockOptions::new().with_ttl(Span::from_secs(2))).expect("valid");
    assert_eq!(p.ttl.as_millis(), 2_000);
}

#[test]
fn invalid_options_are_rejected() {
    let o = LockOptions::new().with_ttl(Span::from_millis(1));
    assert!(matches!(manager().try_lock_with("k", &o), Err(Error::InvalidConfig(_))));
}

#[test]
fn releases_are_sent_once_and_delete_the_will_first() {
    let mut h = handle();
    let f = h.release().expect("first release");
    assert_eq!(script(&f.clear_will), Script::WillDel);
    assert_eq!(f.clear_will.keys, ["orders:42", "orders:42:will"]);
    assert_eq!(shown(&f.clear_will.args), [TOKEN]);
    assert_eq!(script(&f.release), Script::Release);
    assert_eq!(f.release.keys, ["orders:42", "{orders:42}:fence"]);
    assert_eq!(shown(&f.release.args), [TOKEN]);
    for _ in 0..3 {
        assert!(h.release().is_none());
        assert!(h.dropped().is_none());
    }
    assert!(h.release_answer(Ok(1)).is_ok());
    match h.release_answer(Ok(0)) {
        Err(Error::Lost { key, fence }) => assert_eq!((key.as_str(), fence), ("orders:42", 9)),
        other => panic!("{other:?}"),
    }
    assert_eq!(
        h.release_answer(Err("x".into())).unwrap_err().message(),
        "backend error: release script failed: x"
    );
}

#[test]
fn dropped_and_disarmed_handles() {
    let mut h = handle();
    assert_eq!(script(&h.dropped().expect("release on drop")), Script::Release);
    let mut h = handle();
    h.disarm();
    assert!(h.dropped().is_none());
    assert!(h.release().is_none());
}

#[test]
fn extensions_check_the_floor_then_the_handle() {
    let mut h = handle();
    let i = h.extend(&Span::from_secs(5)).expect("sent");
    assert_eq!(script(&i), Script::Extend);
    assert_eq!(shown(&i.args), [TOKEN, "5000", "50000"]);
    assert_eq!(
        h.extend(&Span::from_millis(3)).unwrap_err().message(),
        "invalid config: extend ttl 3ms is below the 10ms floor"
    );
    assert!(h.extended(Ok(1)).is_ok());
    assert!(matches!(h.extended(Err("x".into())), Err(Error::Backend(_))));
    assert!(!h.is_lost());
    assert!(matches!(h.extended(Ok(0)), Err(Error::Lost { .. })));
    assert!(h.is_lost());
    h.release();
    assert!(matches!(h.extend(&Span::from_secs(5)), Err(Error::Lost { .. })));
}

#[test]
fn renewals_are_told_apart() {
    assert_eq!(renewal_outcome(&Ok(1)), Renewal::Renewed);
    assert_eq!(renewal_outcome(&Ok(0)), Renewal::NotOwner);
    assert_eq!(renewal_outcome(&Err("x".into())), Renewal::Failed);
    assert_eq!(shown(&handle().renewal().args), [TOKEN, "30000", "300000"]);
}

#[test]
fn probes_and_forced_unlocks_count_keys() {
    let m = manager();
    assert_eq!(line(&m.probe_held("k")), "EXISTS k");
    assert!(m.probed(Ok(1)).unwrap());
    assert!(!m.probed(Ok(0)).unwrap());
    assert_eq!(m.probed(Err("x".into())).unwrap_err().message(), "backend error: probe failed: x");
    assert_eq!(line(&m.force_unlock("k")), "DEL k");
    assert!(m.force_unlocked(Ok(2)).unwrap());
    assert!(!m.force_unlocked(Ok(0)).unwrap());
    assert_eq!(
        m.force_unlocked(Err("x".into())).unwrap_err().message(),
        "backend error: force unlock failed: x"
    );
}

#[test]
fn tokens_unlock_and_extend_without_a_handle() {
    let m = manager();
    let f = m.unlock_with_token("k", "t");
    assert_eq!(script(&f.clear_will), Script::WillDel);
    assert_eq!(f.clear_will.keys, ["k", "k:will"]);
    assert_eq!(f.release.keys, ["k", "{k}:fence"]);
    assert_eq!(shown(&f.release.args), ["t"]);
    assert!(m.unlocked_with_token(Ok(1)).unwrap());
    assert!(!m.unlocked_with_token(Ok(2)).unwrap());
    assert!(m.unlocked_with_token(Err("x".into())).is_err());
    let i = m.extend_with_token("k", "t", &Span::from_millis(20)).expect("valid");
    assert_eq!(shown(&i.args), ["t", "20", "200"]);
    assert!(m.extend_with_token("k", "t", &Span::from_millis(9)).is_err());
    assert!(m.extended_with_token(Ok(1)).unwrap());
    assert!(!m.extended_with_token(Ok(0)).unwrap());
    assert_eq!(
        m.extended_with_token(Err("x".into())).unwrap_err().message(),
        "backend error: extend failed: x"
    );
}

fn batch_of(s: &Scan) -> String {
    match s.next_step() {
        ScanStep::Batch(c) => line(&c),
        other => panic!("{other:?}"),
    }
}

fn asked_of(s: &Scan) -> String {
    match s.next_step() {
        ScanStep::Key { lease, counter } => format!("{}; {}", line(&lease), line(&counter)),
        other => panic!("{other:?}"),
    }
}

#[test]
fn scans_keep_exactly_the_held_keys() {
    let mut s = manager().scan_held("jobs/");
    assert_eq!(batch_of(&s), "SCAN 0 MATCH jobs/* COUNT 500");
    s.take_batch(17, vec!["jobs/a".into(), "jobs/b".into(), "jobs/c".into()]);
    assert_eq!(asked_of(&s), "PTTL jobs/a; EXISTS {jobs/a}:fence");
    s.take_key(Some(1200), Some(1));
    assert_eq!(asked_of(&s), "PTTL jobs/b; EXISTS {jobs/b}:fence");
    s.take_key(Some(-1), Some(1));
    assert_eq!(asked_of(&s), "PTTL jobs/c; EXISTS {jobs/c}:fence");
    s.take_key(None, Some(1));
    assert_eq!(batch_of(&s), "SCAN 17 MATCH jobs/* COUNT 500");
    let batch = ["jobs/d", "jobs/a", "jobs/d:will", "{jobs/d}:fence", "jobs/e"];
    s.take_batch(0, batch.iter().map(|k| k.to_string()).collect());
    assert_eq!(asked_of(&s), "PTTL jobs/d; EXISTS {jobs/d}:fence");
    s.take_key(Some(5), Some(1));
    s.take_key(Some(1100), Some(1));
    s.take_key(Some(9), Some(0));
    s.take_key(Some(9), Some(1));
    s.take_key(None, None);
    assert!(matches!(s.next_step(), ScanStep::Done));
    assert_eq!(s.found, [("jobs/a".to_string(), 1200), ("jobs/d".to_string(), 5)]);
    assert_eq!(Scan::failed("x").message(), "backend error: scan failed: x");
}

#[test]
fn prefixes_are_taken_literally() {
    assert_eq!(pattern_for(""), "*");
    assert_eq!(pattern_for("a*b?[c]\\"), "a\\*b\\?\\[c]\\\\*");
    let mut s = manager().scan_held("a*");
    assert_eq!(batch_of(&s), "SCAN 0 MATCH a\\** COUNT 500");
    s.take_batch(0, vec!["a*b".into(), "axb".into()]);
    s.take_key(Some(1), Some(1));
    s.take_key(Some(1), Some(1));
    assert_eq!(s.found, [("a*b".to_string(), 1)]);
}

#[test]
fn locks_are_listed_by_their_lease() {
    let mut s = manager().scan_held("");
    let names =
        ["k", "x:will", "{k}:fence", "{k}:q", "{k}:hb:t", "k:will", "{user1}:cart", "{q}:fenced"];
    s.take_batch(0, names.iter().map(|k| k.to_string()).collect());
    s.take_key(Some(49_000), Some(0));
    s.take_key(Some(7), Some(1));
    for _ in 0..4 {
        s.take_key(Some(9), Some(0));
    }
    s.take_key(Some(3), None);
    s.take_key(Some(2), Some(0));
    let listed: Vec<&str> = s.found.iter().map(|(k, _)| k.as_str()).collect();
    assert_eq!(listed, ["k", "x:will", "{user1}:cart", "{q}:fenced"]);
}

#[test]
fn keys_are_described() {
    let m = manager();
    let d = m.describe_key("k");
    assert_eq!(line(&d.held), "EXISTS k");
    assert_eq!(line(&d.version), "GET {k}:fence");
    assert_eq!(line(&d.lease), "PTTL k");
    assert_eq!(m.described(Ok(1), Ok(Some(4)), Ok(90)).unwrap(), (true, 4, 90));
    assert_eq!(m.described(Ok(0), Ok(None), Ok(-2)).unwrap(), (false, 0, 0));
    assert_eq!(m.described(Ok(1), Ok(Some(4)), Ok(-1)).unwrap(), (true, 4, 0));
    assert_eq!(
        m.described(Ok(1), Err("x".into()), Ok(1)).unwrap_err().message(),
        "backend error: describe failed: x"
    );
}

fn slot_tag(key: &str) -> &str {
    match key.find('{') {
        Some(open) => match key[open + 1..].find('}') {
            Some(0) | None => key,
            Some(n) => &key[open + 1..open + 1 + n],
        },
        None => key,
    }
}

#[test]
fn every_key_of_a_lock_lies_in_one_slot() {
    let p = palisade::fair::PendingFair {
        key: "orders:42".into(),
        owner: OwnerId::from_bits(1),
        ttl: Span::from_secs(1),
    };
    for k in &p.invocation().keys {
        assert_eq!(slot_tag(k), "orders:42");
    }
}
