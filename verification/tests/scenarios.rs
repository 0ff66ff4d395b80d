//! Whole lives of locks, against a store that runs the scripts in memory.

use std::collections::HashMap;

use palisade::command::{Arg, Command, Invocation, Program, Script};
use palisade::config::RedisConfig;
use palisade::demo::DemoState;
use palisade::demo_coordination::render_event;
use palisade::error::Error;
use palisade::fencing::FencingToken;
use palisade::options::LockOptions;
use palisade::owner::OwnerId;
use palisade::payloads::{
    AcquireRequest, ListQuery, LockOutcome, ReleaseRequest, UnlockOutcome,
};
use palisade::poll::PollStep;
use palisade::redlock::{
    NodeAnswer, RedlockConfig, RedlockHandle, RedlockManager, RingStep, RoundEnd,
};
use palisade::scan::{Scan, ScanStep};
use palisade::single::{
    renewal_outcome, Farewell, PendingLock, RedisLockHandle, RedisLockManager,
};
use palisade::span::Span;
use palisade::watch_hub::{LockEvent, PollerStep, WatchHub};
use palisade::watchdog::{Renewal, Watchdog, WatchdogStep};

/// A store in memory. Time is counted in milliseconds.
#[derive(Default)]
struct Store {
    now: u64,
    values: HashMap<String, (String, Option<u64>)>,
    /// Answers nothing until then.
    paused_until: u64,
}

fn text(a: &Arg) -> String {
    match a {
        Arg::Text(t) => t.clone(),
        Arg::Int(n) => n.to_string(),
        Arg::Bytes(b) => String::from_utf8(b.clone()).expect("text"),
    }
}

fn number(a: &Arg) -> u64 {
    match a {
        Arg::Int(n) => *n,
        other => panic!("{other:?}"),
    }
}

impl Store {
    fn get(&self, key: &str) -> Option<&String> {
        match self.values.get(key) {
            Some((v, None)) => Some(v),
            Some((v, Some(end))) if self.now < *end => Some(v),
            _ => None,
        }
    }

    fn set(&mut self, key: &str, value: &str, lease: u64) {
        self.values.insert(key.to_string(), (value.to_string(), Some(self.now + lease)));
    }

    fn sleep(&mut self, ms: u64) {
        self.now += ms;
    }

    fn nanos(&self) -> u128 {
        self.now as u128 * 1_000_000
    }

    fn reachable(&self) -> Result<(), String> {
        if self.now < self.paused_until {
            Err("timed out".to_string())
        } else {
            Ok(())
        }
    }

    fn owns(&self, key: &str, token: &str) -> bool {
        self.get(key).map(|t| t == token).unwrap_or(false)
    }

    fn acquire(&mut self, i: &Invocation) -> Result<(i64, i64), String> {
        self.reachable()?;
        assert!(matches!(i.program, Program::Known(Script::Acquire)));
        let token = text(&i.args[0]);
        if self.get(&i.keys[0]).is_some() {
            return Ok((0, 0));
        }
        let fence = self.get(&i.keys[1]).map(|v| v.parse::<u64>().unwrap()).unwrap_or(0) + 1;
        self.set(&i.keys[0], &token, number(&i.args[1]));
        self.set(&i.keys[1], &fence.to_string(), number(&i.args[2]));
        Ok((1, fence as i64))
    }

    fn invoke(&mut self, i: &Invocation) -> Result<i64, String> {
        self.reachable()?;
        let script = match &i.program {
            Program::Known(s) => *s,
            other => panic!("{other:?}"),
        };
        let token = text(&i.args[0]);
        if !self.owns(&i.keys[0], &token) {
            return Ok(0);
        }
        match script {
            Script::Release => {
                self.values.remove(&i.keys[0]);
            }
            Script::Extend => {
                let fence = self.get(&i.keys[1]).cloned().unwrap_or_default();
                self.set(&i.keys[0], &token, number(&i.args[1]));
                self.set(&i.keys[1], &fence, number(&i.args[2]));
            }
            Script::WillSet => {
                let will = format!("{token} {}", text(&i.args[1]));
                self.set(&i.keys[1], &will, number(&i.args[2]));
            }
            Script::WillDel => {
                self.values.remove(&i.keys[1]);
            }
            other => panic!("{other:?}"),
        }
        Ok(1)
    }

    fn count(&mut self, c: &Command) -> Result<i64, String> {
        self.reachable()?;
        let key = text(&c.args[0]);
        Ok(match c.name.as_str() {
            "EXISTS" => self.get(&key).is_some() as i64,
            "DEL" => {
                let there = self.get(&key).is_some();
                self.values.remove(&key);
                there as i64
            }
            "PTTL" => match self.values.get(&key) {
                Some((_, Some(end))) if self.now < *end => (*end - self.now) as i64,
                _ => -2,
            },
            "INCR" => {
                let n = self.get(&key).map(|v| v.parse::<i64>().unwrap()).unwrap_or(0) + 1;
                self.values.insert(key, (n.to_string(), None));
                n
            }
            other => panic!("{other}"),
        })
    }

    fn farewell(&mut self, f: &Farewell) -> Result<i64, String> {
        let _ = self.invoke(&f.clear_will);
        self.invoke(&f.release)
    }
}

fn manager() -> RedisLockManager {
    RedisLockManager::connect(&RedisConfig::new("redis://127.0.0.1:6379"), Ok(()))
        .expect("connected")
}

fn lease(ms: u64) -> LockOptions {
    LockOptions::new().with_ttl(Span::from_millis(ms))
}

fn settle(store: &mut Store, p: PendingLock) -> Result<RedisLockHandle, Error> {
    let reply = store.acquire(&p.invocation());
    p.complete(reply)
}

fn try_lock(store: &mut Store, key: &str) -> Result<RedisLockHandle, Error> {
    settle(store, manager().try_lock(key)?)
}

fn try_lock_with(store: &mut Store, key: &str, o: &LockOptions) -> Result<RedisLockHandle, Error> {
    settle(store, manager().try_lock_with(key, o)?)
}

fn release(store: &mut Store, h: &mut RedisLockHandle) -> Result<(), Error> {
    match h.release() {
        Some(f) => {
            let reply = store.farewell(&f);
            h.release_answer(reply)
        }
        None => Ok(()),
    }
}

fn extend(store: &mut Store, h: &mut RedisLockHandle, ms: u64) -> Result<(), Error> {
    let call = h.extend(&Span::from_millis(ms))?;
    let reply = store.invoke(&call);
    h.extended(reply)
}

fn raw_del(store: &mut Store, key: &str) {
    store.values.remove(key);
}

/// Lets the watchdog of a handle run for `ms`.
fn watch_over(store: &mut Store, h: &mut RedisLockHandle, ms: u64) {
    let period = Watchdog::period(&h.ttl).as_millis();
    let mut dog = Watchdog::new();
    let end = store.now + ms;
    while store.now + period <= end {
        store.sleep(period);
        if !Watchdog::should_renew(true, h.released) {
            break;
        }
        let reply = store.invoke(&h.renewal());
        if dog.after_renewal(renewal_outcome(&reply)) == WatchdogStep::Lost {
            h.mark_lost();
            break;
        }
    }
    store.now = store.now.max(end);
}

#[test]
fn mutual_exclusion_second_try_lock_fails() {
    let mut s = Store::default();
    let mut h1 = try_lock(&mut s, "mutex").expect("first grant");
    let err = try_lock(&mut s, "mutex").unwrap_err();
    assert!(matches!(err, Error::Held { .. }), "got {err:?}");
    release(&mut s, &mut h1).expect("release");
    try_lock(&mut s, "mutex").expect("grant after release");
}

#[test]
fn fence_tokens_increase_across_grants() {
    let mut s = Store::default();
    let mut last = FencingToken::zero();
    for _ in 0..3 {
        let mut h = try_lock(&mut s, "fence").expect("grant");
        let fence = h.fence();
        assert!(fence.supersedes(last));
        last = fence;
        release(&mut s, &mut h).expect("release");
    }
}

#[test]
fn release_of_expired_lease_reports_lost() {
    let mut s = Store::default();
    let mut h = try_lock_with(&mut s, "lost", &lease(50)).expect("grant");
    raw_del(&mut s, "lost");
    s.sleep(10);
    let err = release(&mut s, &mut h).unwrap_err();
    assert!(matches!(err, Error::Lost { .. }), "got {err:?}");
}

#[test]
fn extend_keeps_ownership_and_blocks_others() {
    let mut s = Store::default();
    let mut h = try_lock_with(&mut s, "extend", &lease(120)).expect("grant");
    extend(&mut s, &mut h, 5_000).expect("extend");
    s.sleep(200);
    assert!(matches!(try_lock(&mut s, "extend").unwrap_err(), Error::Held { .. }));
    raw_del(&mut s, "extend");
    assert!(matches!(extend(&mut s, &mut h, 5_000).unwrap_err(), Error::Lost { .. }));
}

#[test]
fn try_lock_for_times_out_while_contended() {
    let mut s = Store::default();
    let _h = try_lock(&mut s, "timeout").expect("grant");
    let started = s.now;
    let waiting = manager().try_lock_for("timeout", &Span::from_millis(150), s.nanos());
    let err = loop {
        let attempt = try_lock_with(&mut s, "timeout", &LockOptions::new());
        match waiting.after(attempt, s.nanos()) {
            PollStep::Done(r) => break r.unwrap_err(),
            PollStep::Sleep(nap) => s.sleep(nap.as_millis()),
        }
    };
    assert!(matches!(err, Error::Timeout { .. }), "got {err:?}");
    assert_eq!(s.now - started, 150);
}

#[test]
fn drop_releases_eventually() {
    let mut s = Store::default();
    let mut h = try_lock(&mut s, "drop").expect("grant");
    let call = h.dropped().expect("still held");
    s.invoke(&call).expect("answer");
    assert!(try_lock(&mut s, "drop").is_ok());
}

#[test]
fn invalid_options_rejected() {
    let mut s = Store::default();
    let err = try_lock_with(&mut s, "invalid", &lease(1)).unwrap_err();
    assert!(matches!(err, Error::InvalidConfig(_)), "got {err:?}");
}

#[test]
fn watchdog_renews_lease_past_ttl() {
    let mut s = Store::default();
    let options = lease(300).with_watchdog(true);
    let mut h = try_lock_with(&mut s, "wd-renew", &options).expect("grant");
    watch_over(&mut s, &mut h, 1_000);
    assert!(matches!(try_lock(&mut s, "wd-renew"), Err(Error::Held { .. })));
    release(&mut s, &mut h).expect("release");
    try_lock(&mut s, "wd-renew").expect("grant after release");
}

#[test]
fn watchdog_stops_renewing_after_release() {
    let mut s = Store::default();
    let options = lease(200).with_watchdog(true);
    let mut h = try_lock_with(&mut s, "wd-stop", &options).expect("grant");
    release(&mut s, &mut h).expect("release");
    watch_over(&mut s, &mut h, 700);
    assert!(s.get("wd-stop").is_none());
    assert!(!h.is_lost());
}

#[test]
fn watchdog_poisons_handle_when_lease_revoked() {
    let mut s = Store::default();
    let options = lease(240).with_watchdog(true);
    let mut h = try_lock_with(&mut s, "wd-poison", &options).expect("grant");
    raw_del(&mut s, "wd-poison");
    watch_over(&mut s, &mut h, 80);
    assert!(h.is_lost());
}

#[test]
fn stale_holder_is_detected_and_new_fence_supersedes() {
    let mut s = Store::default();
    let mut a = try_lock_with(&mut s, "stale", &lease(120)).expect("grant A");
    let fence_a = a.fence();
    raw_del(&mut s, "stale");
    s.sleep(10);
    let mut b = try_lock(&mut s, "stale").expect("grant B");
    assert!(b.fence().supersedes(fence_a));
    let err = extend(&mut s, &mut a, 5_000).unwrap_err();
    assert!(matches!(err, Error::Lost { .. }), "got {err:?}");
    assert!(a.is_lost());
    release(&mut s, &mut b).expect("release B");
}

#[test]
fn release_is_idempotent() {
    let mut s = Store::default();
    let mut h = try_lock_with(&mut s, "idem", &lease(5_000)).expect("grant");
    for _ in 0..4 {
        assert!(release(&mut s, &mut h).is_ok());
    }
}

#[test]
fn loss_and_release_are_remembered() {
    let mut s = Store::default();
    let mut h = try_lock(&mut s, "final").expect("grant");
    h.mark_lost();
    extend(&mut s, &mut h, 5_000).expect("the store still says yes");
    assert!(h.is_lost());
    release(&mut s, &mut h).expect("release");
    assert!(h.release().is_none());
    assert!(h.dropped().is_none());
    assert!(h.is_lost());
    assert!(matches!(extend(&mut s, &mut h, 5_000).unwrap_err(), Error::Lost { .. }));
}

#[test]
fn blackout_mid_hold_poisons_and_heals() {
    let mut s = Store::default();
    let options = lease(1_000).with_watchdog(true);
    let mut h = try_lock_with(&mut s, "chaos", &options).expect("grant");
    s.paused_until = s.now + 3_000;
    watch_over(&mut s, &mut h, 3_200);
    assert!(h.is_lost());
    let mut successor =
        try_lock_with(&mut s, "chaos", &lease(5_000)).expect("successor acquires after blackout");
    assert!(matches!(extend(&mut s, &mut h, 1_000).unwrap_err(), Error::Lost { .. }));
    release(&mut s, &mut successor).expect("cleanup");
}

fn read_will(s: &Store, key: &str) -> Result<Option<Vec<u8>>, Error> {
    let call = manager().read_testament(key);
    assert!(matches!(call.program, Program::Known(Script::WillGet)));
    let left = s.get(&call.keys[0]).and_then(|holder| {
        let will = s.get(&call.keys[1])?;
        let (token, payload) = will.split_once(' ').expect("will");
        (token != holder).then(|| payload.as_bytes().to_vec())
    });
    manager().testament_read(Ok(left))
}

fn set_will(s: &mut Store, key: &str, token: &str, ms: u64, payload: &[u8]) -> Result<(), Error> {
    let call = manager().set_testament(key, token, &Span::from_millis(ms), payload.to_vec());
    let reply = s.invoke(&call);
    manager().testament_set(key, reply)
}

fn clear_will(s: &mut Store, key: &str, token: &str) -> Result<(), Error> {
    let reply = s.invoke(&manager().clear_testament(key, token));
    manager().testament_cleared(reply)
}

#[test]
fn testament_survives_crash_and_reaches_successor() {
    let mut s = Store::default();
    let a = try_lock_with(&mut s, "will", &lease(400)).expect("A grant");
    set_will(&mut s, "will", &a.owner().token(), 30_000, b"checkpoint=4172;inflight=none")
        .expect("set will");
    assert_eq!(read_will(&s, "will").unwrap(), None, "its own will");
    s.sleep(600);
    assert_eq!(read_will(&s, "will").unwrap(), None, "no successor yet");
    let mut b = try_lock_with(&mut s, "will", &lease(10_000)).expect("B grant");
    let payload = read_will(&s, "will").expect("read will");
    assert_eq!(payload.as_deref(), Some(b"checkpoint=4172;inflight=none".as_slice()));
    clear_will(&mut s, "will", &b.owner().token()).expect("successor clears consumed will");
    assert_eq!(read_will(&s, "will").unwrap(), None);
    release(&mut s, &mut b).expect("B release");
}

#[test]
fn graceful_release_clears_testament() {
    let mut s = Store::default();
    let mut h = try_lock_with(&mut s, "will-clear", &lease(10_000)).expect("grant");
    let token = h.owner().token();
    set_will(&mut s, "will-clear", &token, 60_000, b"secret").expect("set");
    clear_will(&mut s, "will-clear", &token).expect("clear");
    assert_eq!(read_will(&s, "will-clear").unwrap(), None);
    set_will(&mut s, "will-clear", &token, 60_000, b"secret").expect("set again");
    release(&mut s, &mut h).expect("release");
    assert_eq!(read_will(&s, "will-clear").unwrap(), None);
}

#[test]
fn testament_requires_ownership() {
    let mut s = Store::default();
    let mut h = try_lock_with(&mut s, "will-owner", &lease(10_000)).expect("grant");
    let impostor = OwnerId::generate().token();
    let err = set_will(&mut s, "will-owner", &impostor, 5_000, b"evil").unwrap_err();
    assert!(matches!(err, Error::Lost { .. }), "got {err:?}");
    release(&mut s, &mut h).expect("release");
}

#[test]
fn zero_predicates_rejected() {
    let err = manager().acquire_where("no-preds").acquire().unwrap_err();
    assert!(matches!(err, Error::InvalidConfig(_)));
}

fn ring() -> RedlockManager {
    let nodes = ["redis://127.0.0.1:6380", "redis://127.0.0.1:6381", "redis://127.0.0.1:6382"];
    let config = RedlockConfig::new(nodes.iter().map(|n| n.to_string()).collect());
    let mut dial = RedlockManager::connect(config).expect("ring");
    loop {
        match dial.next_step().expect("readable") {
            RingStep::Dial(_) => dial.dialled(Ok(())).expect("reached"),
            RingStep::Done(m) => return m,
        }
    }
}

fn ring_lock(nodes: &mut [Store], key: &str, o: &LockOptions) -> Result<RedlockHandle, Error> {
    let mut round = ring().try_lock(key, o)?;
    let call = round.invocation();
    for node in nodes.iter_mut() {
        let end = round.answered(match node.acquire(&call) {
            Ok((status, fence)) => NodeAnswer::Answer(status, fence),
            Err(_) => NodeAnswer::TimedOut,
        });
        assert!(end.is_none());
    }
    match round.conclude(true) {
        RoundEnd::Quorum(p) => {
            let fence = nodes[0].count(&p.allocate_fence());
            p.make_handle(fence)
        }
        RoundEnd::RolledBack(taken, call, why) => {
            for i in taken {
                let _ = nodes[i].invoke(&call);
            }
            Err(why)
        }
    }
}

fn ask_all(nodes: &mut [Store], call: &Invocation) -> Vec<Option<i64>> {
    nodes.iter_mut().map(|n| n.invoke(call).ok()).collect()
}

#[test]
fn losing_quorum_poisons_the_holder() {
    let mut nodes = [Store::default(), Store::default(), Store::default()];
    let options = lease(2_000).with_watchdog(true);
    let mut h = ring_lock(&mut nodes, "ring", &options).expect("grant");
    assert!(matches!(ring_lock(&mut nodes, "ring", &options), Err(Error::Held { .. })));
    nodes[0].paused_until = 6_000;
    nodes[1].paused_until = 6_000;
    let mut dog = Watchdog::new();
    let mut renewals = 0;
    while !h.is_lost() {
        assert!(renewals < 10, "holder never learned it lost quorum");
        nodes.iter_mut().for_each(|n| n.sleep(Watchdog::period(&h.ttl).as_millis()));
        let replies = ask_all(&mut nodes, &h.renewal());
        let outcome = h.fire_extend(&replies);
        assert_eq!(outcome, Renewal::Failed);
        if dog.after_renewal(outcome) == WatchdogStep::Lost {
            h.mark_lost();
        }
        renewals += 1;
    }
    assert_eq!(renewals, 2);
    nodes.iter_mut().for_each(|n| n.sleep(7_000));
    let mut again = ring_lock(&mut nodes, "ring", &options).expect("free after full expiry");
    assert!(again.fence().supersedes(h.fence()));
    let replies = ask_all(&mut nodes, &again.release().expect("held"));
    again.run_release(&replies).expect("cleanup");
}

fn acquire(s: &mut Store, d: &mut DemoState, key: &str, ttl_ms: u64) -> LockOutcome {
    let req = AcquireRequest {
        key: key.to_string(),
        ttl_ms: Some(ttl_ms),
        watchdog: None,
        safety_policy: None,
        session_token: None,
    };
    let attempt = settle(s, d.acquire(&req).expect("valid"));
    let now = s.nanos();
    d.acquired(&req, attempt, now).answer.expect("answered")
}

fn granted(o: LockOutcome) -> (String, u64) {
    match o {
        LockOutcome::Granted { token, fence, .. } => (token, fence),
        other => panic!("{other:?}"),
    }
}

fn unlock(s: &mut Store, d: &DemoState, key: &str, token: &str) -> UnlockOutcome {
    let req = ReleaseRequest { key: key.to_string(), token: token.to_string() };
    let reply = s.farewell(&d.release(&req));
    d.released(reply).0.expect("answered")
}

fn describe(s: &mut Store, key: &str) -> Result<(bool, u64, u64), Error> {
    let calls = manager().describe_key(key);
    let version = s.get(&text(&calls.version.args[0])).map(|v| v.parse().unwrap());
    let held = s.count(&calls.held);
    let lease = s.count(&calls.lease);
    manager().described(held, Ok(version), lease)
}

#[test]
fn demo_rest_roundtrip_lock_describe_unlock() {
    let mut s = Store::default();
    let mut d = DemoState::new(manager());
    let (token, fence) = granted(acquire(&mut s, &mut d, "roundtrip", 8_000));
    assert!(fence > 0);
    assert!(matches!(acquire(&mut s, &mut d, "roundtrip", 4_000), LockOutcome::Held { .. }));
    let told = d.described(describe(&mut s, "roundtrip")).expect("told");
    assert!(told.held);
    assert_eq!(told.version, fence);
    assert!(told.ttl_ms > 0);
    assert_eq!(unlock(&mut s, &d, "roundtrip", &token), UnlockOutcome::Released);
    assert_eq!(unlock(&mut s, &d, "roundtrip", &token), UnlockOutcome::Lost);
    assert!(!d.described(describe(&mut s, "roundtrip")).expect("told").held);
}

fn scan(s: &mut Store, mut scan: Scan) -> Vec<(String, u64)> {
    loop {
        match scan.next_step() {
            ScanStep::Batch(c) => {
                let pattern = text(&c.args[2]);
                let prefix = pattern.trim_end_matches('*');
                let keys = s.values.keys().filter(|k| k.starts_with(prefix)).cloned().collect();
                scan.take_batch(0, keys);
            }
            ScanStep::Key { lease, counter } => {
                let lease = s.count(&lease).ok();
                scan.take_key(lease, s.count(&counter).ok());
            }
            ScanStep::Done => return scan.found,
        }
    }
}

#[test]
fn demo_list_locks_scans_held_keys_under_prefix() {
    let mut s = Store::default();
    let mut d = DemoState::new(manager());
    granted(acquire(&mut s, &mut d, "scan:hot", 15_000));
    granted(acquire(&mut s, &mut d, "elsewhere", 15_000));
    let q = ListQuery { prefix: Some("scan".to_string()) };
    let found = scan(&mut s, d.list_locks(&q));
    let listed = d.listed(&q, Ok(found)).expect("listed");
    assert_eq!(listed.prefix, "scan");
    assert_eq!(listed.locks.len(), 1);
    assert_eq!(listed.locks[0].key, "scan:hot");
    let all = ListQuery { prefix: None };
    s.values.remove("{scan:hot}:fence");
    let found = scan(&mut s, d.list_locks(&all));
    assert!(found.iter().any(|(k, _)| k == "elsewhere"));
    assert_eq!(found.len(), 2);
}

#[test]
fn demo_websocket_streams_versioned_events() {
    let mut s = Store::default();
    let mut d = DemoState::new(manager());
    let mut hub = WatchHub::new();
    let mut told: Vec<LockEvent> = Vec::new();
    assert!(hub.subscribe("watch").start_poller);
    let mut poll = |s: &mut Store, told: &mut Vec<LockEvent>| {
        assert_eq!(hub.poll("watch"), PollerStep::Probe);
        let seen = describe(s, "watch").map(|(held, version, _)| (held, version));
        told.extend(hub.probed("watch", seen));
        s.sleep(100);
    };
    poll(&mut s, &mut told);
    let (token, _) = granted(acquire(&mut s, &mut d, "watch", 8_000));
    poll(&mut s, &mut told);
    poll(&mut s, &mut told);
    unlock(&mut s, &d, "watch", &token);
    poll(&mut s, &mut told);
    let lines: Vec<String> = told.iter().map(render_event).collect();
    assert_eq!(
        lines,
        [
            "{\"event\":\"freed\",\"version\":0}",
            "{\"event\":\"acquired\",\"version\":1}",
            "{\"event\":\"freed\",\"version\":1}",
        ]
    );
}
