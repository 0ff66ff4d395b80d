//! Reentrant, read-write and fair locks, latches, testaments and semantic locks.

use palisade::command::{Arg, Invocation, Program, Script};
use palisade::error::Error;
use palisade::fair::PendingFair;
use palisade::latch::RedisCountDownLatch;
use palisade::options::LockOptions;
use palisade::owner::OwnerId;
use palisade::poll::PollStep;
use palisade::reentrant::ReentrantLockHandle;
use palisade::rwlock::{validate_ttl, PendingRead, PendingWrite};
use palisade::semantic::{esc, Number, PendingSemantic, Predicate, SemanticGuard};
use palisade::single::RedisLockManager;
use palisade::span::Span;

const TOKEN: &str = "00000000-0000-0000-0000-000000000001";

fn manager() -> RedisLockManager {
    RedisLockManager { default_ttl: Span::from_secs(30), watchdog_default: false }
}

fn owner() -> OwnerId {
    OwnerId::from_bits(1)
}

fn told(i: &Invocation) -> (Script, String, String) {
    let script = match &i.program {
        Program::Known(s) => *s,
        other => panic!("{other:?}"),
    };
    let args: Vec<String> = i
        .args
        .iter()
        .map(|a| match a {
            Arg::Text(t) => t.clone(),
            Arg::Int(n) => n.to_string(),
            Arg::Bytes(b) => format!("{b:?}"),
        })
        .collect();
    (script, i.keys.join(" "), args.join(" "))
}

fn expect(i: &Invocation, script: Script, keys: &str, args: &str) {
    assert_eq!(told(i), (script, keys.to_string(), args.to_string()));
}

fn is_lost(r: Result<(), Error>) -> bool {
    matches!(r, Err(Error::Lost { fence: 5, .. }))
}

fn reentrant() -> ReentrantLockHandle {
    manager()
        .try_lock_reentrant("k", owner(), &LockOptions::new())
        .expect("valid")
        .complete(Ok((2, 5)))
        .expect("grant")
}

#[test]
fn reentrant_locks_send_the_given_owner() {
    let p = manager().try_lock_reentrant("k", owner(), &LockOptions::new()).expect("valid");
    expect(
        &p.invocation(),
        Script::ReentrantAcquire,
        "k {k}:fence",
        &format!("{TOKEN} 30000 300000"),
    );
    let h = reentrant();
    assert_eq!((h.key(), h.owner().bits, h.fence().value()), ("k", 1, 5));
    let denied = manager().try_lock_reentrant("k", owner(), &LockOptions::new()).expect("valid");
    assert!(matches!(denied.complete(Ok((0, 0))), Err(Error::Held { .. })));
    let short = LockOptions::new().with_ttl(Span::from_millis(1));
    assert!(manager().try_lock_reentrant("k", owner(), &short).is_err());
}

#[test]
fn reentrant_holds_are_given_back_once() {
    let mut h = reentrant();
    let i = h.release_one().expect("sent");
    expect(&i, Script::ReentrantRelease, "k", &format!("{TOKEN} 0"));
    assert!(h.release_one().is_none());
    assert!(h.release_all().is_none());
    let mut h = reentrant();
    let i = h.release_all().expect("sent");
    expect(&i, Script::ReentrantReleaseAll, "k", TOKEN);
    assert!(h.released_one(Ok(0)).is_ok());
    assert!(is_lost(h.released_one(Ok(-1))));
    assert!(is_lost(h.released_all(Ok(-1))));
    assert_eq!(
        h.released_one(Err("x".into())).unwrap_err().message(),
        "backend error: reentrant release failed: x"
    );
    assert_eq!(
        h.released_all(Err("x".into())).unwrap_err().message(),
        "backend error: reentrant release-all failed: x"
    );
}

#[test]
fn reentrant_extensions_end_a_lost_hold() {
    let mut h = reentrant();
    let i = h.extend(&Span::from_secs(2)).expect("sent");
    expect(&i.keep, Script::FenceKeep, "{k}:fence", "20000");
    expect(&i.lock, Script::ReentrantExtend, "k", &format!("{TOKEN} 2000"));
    assert!(h.extended(Ok(1)).is_ok());
    assert!(h.extended(Err("x".into())).is_err());
    assert!(!h.gone);
    assert!(is_lost(h.extended(Ok(-1))));
    assert!(h.gone);
    assert!(h.release_one().is_none());
    assert!(matches!(h.extend(&Span::from_secs(2)), Err(Error::Lost { .. })));
    assert!(matches!(h.extend(&Span::from_millis(2)), Err(Error::InvalidConfig(_))));
}

#[test]
fn readers_and_writers_ask_by_different_scripts() {
    let r = PendingRead { key: "k".into(), owner: owner(), ttl: Span::from_secs(4) };
    expect(&r.invocation(), Script::RwReadAcquire, "k {k}:fence", &format!("{TOKEN} 4000 40000"));
    let w = PendingWrite { key: "k".into(), owner: owner(), ttl: Span::from_secs(4) };
    expect(&w.invocation(), Script::RwWriteAcquire, "k {k}:fence", &format!("{TOKEN} 4000 40000"));
    assert!(matches!(r.complete(Ok((2, 5))), Err(Error::Held { .. })));
    assert!(w.complete(Ok((2, 5))).is_ok());
    let w = PendingWrite { key: "k".into(), owner: owner(), ttl: Span::from_secs(4) };
    assert!(matches!(w.complete(Ok((0, 5))), Err(Error::Held { .. })));
    let opts = LockOptions::new();
    assert!(manager().try_read("k", &opts).is_ok());
    assert!(manager().try_write("k", &opts).is_ok());
    assert!(validate_ttl(&Span::from_millis(10)).is_ok());
    assert_eq!(
        validate_ttl(&Span::from_millis(9)).unwrap_err().message(),
        "invalid config: ttl 9ms is below the 10ms floor"
    );
}

#[test]
fn reader_slots_are_given_back_with_the_lease() {
    let pending = || PendingRead { key: "k".into(), owner: owner(), ttl: Span::from_secs(4) };
    let mut h = pending().complete(Ok((1, 5))).expect("grant");
    assert_eq!((h.key(), h.fence().value()), ("k", 5));
    let calls = h.extend(&Span::from_secs(1)).unwrap();
    expect(&calls.keep, Script::FenceKeep, "{k}:fence", "10000");
    expect(&calls.lock, Script::RwExtend, "k", &format!("{TOKEN} 1000"));
    let calls = h.release().unwrap();
    expect(&calls.keep, Script::FenceKeep, "{k}:fence", "40000");
    expect(&calls.lock, Script::RwReadRelease, "k", &format!("{TOKEN} 4000"));
    assert!(h.release().is_none());
    assert!(is_lost(h.release_answer(Ok(-1))));
    let mut h = pending().complete(Ok((1, 5))).expect("grant");
    expect(&h.dropped().unwrap(), Script::RwReadRelease, "k", &format!("{TOKEN} 0"));
    let mut h = pending().complete(Ok((1, 5))).expect("grant");
    assert!(is_lost(h.extended(Ok(-2))));
    assert!(h.dropped().is_none());
}

#[test]
fn writer_slots_are_given_back() {
    let pending = || PendingWrite { key: "k".into(), owner: owner(), ttl: Span::from_secs(4) };
    let mut h = pending().complete(Ok((1, 5))).expect("grant");
    let calls = h.extend(&Span::from_secs(9)).unwrap();
    expect(&calls.keep, Script::FenceKeep, "{k}:fence", "90000");
    expect(&calls.lock, Script::RwExtend, "k", &format!("{TOKEN} 9000"));
    expect(&h.release().unwrap(), Script::RwWriteRelease, "k", TOKEN);
    assert!(h.dropped().is_none());
    assert!(h.release_answer(Ok(0)).is_ok());
    assert_eq!(
        h.release_answer(Err("x".into())).unwrap_err().message(),
        "backend error: rw write-release failed: x"
    );
    let mut h = pending().complete(Ok((1, 5))).expect("grant");
    expect(&h.dropped().unwrap(), Script::RwWriteRelease, "k", TOKEN);
    assert!(matches!(h.extend(&Span::from_secs(1)), Err(Error::Lost { .. })));
}

#[test]
fn fair_waiters_queue_with_a_heartbeat() {
    let p = PendingFair { key: "k".into(), owner: owner(), ttl: Span::from_millis(500) };
    expect(
        &p.invocation(),
        Script::FairAcquire,
        &format!("k {{k}}:q {{k}}:fence {{k}}:hb:{TOKEN}"),
        &format!("{TOKEN} 500 5000 2000"),
    );
    let p = PendingFair { key: "k".into(), owner: owner(), ttl: Span::from_millis(2500) };
    assert_eq!(told(&p.invocation()).2, format!("{TOKEN} 2500 25000 2500"));
    assert!(matches!(p.complete(Ok((0, 0))), Err(Error::Held { .. })));
}

#[test]
fn fair_waits_keep_their_place_in_the_queue() {
    let w = manager()
        .try_lock_fair_for("k", &LockOptions::new(), &Span::from_secs(1), 0)
        .expect("valid");
    let a = w.attempt();
    let b = w.attempt();
    assert_eq!(a.owner, b.owner);
    assert_eq!(told(&a.invocation()), told(&b.invocation()));
    assert!(matches!(w.waiting.after(a.complete(Ok((0, 0))), 5), PollStep::Sleep(_)));
    let short = LockOptions::new().with_ttl(Span::from_millis(1));
    assert!(manager().try_lock_fair_for("k", &short, &Span::from_secs(1), 0).is_err());
}

#[test]
fn fair_locks_are_handed_over() {
    let pending = || PendingFair { key: "k".into(), owner: owner(), ttl: Span::from_secs(1) };
    let mut h = pending().complete(Ok((1, 5))).expect("grant");
    let calls = h.release().unwrap();
    expect(&calls.keep, Script::FenceKeep, "{k}:fence", "300000");
    expect(
        &calls.lock,
        Script::FairRelease,
        "k {k}:q {k}:fence",
        &format!("{TOKEN} 30000 {{k}}:hb:"),
    );
    assert!(h.release().is_none());
    assert!(is_lost(h.release_answer(Ok(-1))));
    let mut h = pending().complete(Ok((2, 5))).expect("grant");
    expect(
        &h.dropped().unwrap().lock,
        Script::FairRelease,
        "k {k}:q {k}:fence",
        &format!("{TOKEN} 30000 {{k}}:hb:"),
    );
    let mut h = pending().complete(Ok((2, 5))).expect("grant");
    expect(
        &h.extend(&Span::from_secs(3)).unwrap(),
        Script::Extend,
        "k {k}:fence",
        &format!("{TOKEN} 3000 30000"),
    );
    assert!(h.extended(Ok(1)).is_ok());
    assert!(is_lost(h.extended(Ok(0))));
    assert!(h.gone);
}

#[test]
fn latches_count_down() {
    expect(
        &RedisCountDownLatch::create("l", 3).unwrap(),
        Script::LatchInit,
        "l",
        "3",
    );
    assert_eq!(
        RedisCountDownLatch::create("l", 0).unwrap_err().message(),
        "invalid config: latch initial count must be at least 1"
    );
    let l = RedisCountDownLatch::created("l", Ok(0)).expect("adopted");
    assert_eq!(l.key(), "l");
    assert!(RedisCountDownLatch::created("l", Err("x".into())).is_err());
    expect(&l.count_down(), Script::LatchCountDown, "l", "");
    expect(&l.count(), Script::LatchGet, "l", "");
    assert_eq!(l.eval_remaining(Ok(2)).unwrap(), 2);
    assert!(matches!(l.eval_remaining(Ok(-1)), Err(Error::Lost { fence: 0, .. })));
    assert_eq!(
        l.eval_remaining(Err("x".into())).unwrap_err().message(),
        "backend error: latch op failed: x"
    );
    let w = l.wait_until_zero(&Span::from_millis(50), 0);
    assert!(matches!(w.after(Ok(0), 90_000_000), PollStep::Done(Ok(()))));
    assert!(matches!(w.after(Ok(1), 10), PollStep::Sleep(_)));
    assert!(matches!(w.after(Ok(1), 50_000_000), PollStep::Done(Err(Error::Timeout { .. }))));
    assert!(matches!(
        w.after(l.eval_remaining(Ok(-1)), 0),
        PollStep::Done(Err(Error::Lost { .. }))
    ));
}

#[test]
fn testaments_are_bound_to_the_token() {
    let m = manager();
    let i = m.set_testament("k", TOKEN, &Span::from_secs(30), vec![1, 2]);
    expect(&i, Script::WillSet, "k k:will", &format!("{TOKEN} [1, 2] 30000"));
    assert!(m.testament_set("k", Ok(1)).is_ok());
    assert!(matches!(m.testament_set("k", Ok(0)), Err(Error::Lost { fence: 0, .. })));
    assert!(m.testament_set("k", Err("x".into())).is_err());
    expect(&m.read_testament("k"), Script::WillGet, "k k:will", "");
    assert_eq!(m.testament_read(Ok(Some(vec![7]))).unwrap(), Some(vec![7]));
    assert_eq!(m.testament_read(Ok(None)).unwrap(), None);
    assert!(m.testament_read(Err("x".into())).is_err());
    expect(&m.clear_testament("k", TOKEN), Script::WillDel, "k k:will", TOKEN);
    assert!(m.testament_cleared(Ok(0)).is_ok());
    assert!(m.testament_cleared(Err("x".into())).is_err());
}

fn number(s: &str) -> Number {
    Number::parse(s).expect("number")
}

#[test]
fn quotes_are_escaped() {
    assert_eq!(esc("it's"), "it\\'s");
    assert_eq!(esc("''"), "\\'\\'");
    assert_eq!(esc("plain"), "plain");
    assert_eq!(esc("a\\"), "a\\\\");
    assert_eq!(esc("\\' or '"), "\\\\\\' or \\'");
    assert_eq!(esc("one\r\ntwo"), "one\\r\\ntwo");
}

#[test]
fn numbers_are_what_floats_print_as() {
    for n in ["0", "-0", "12", "-1.5", "0.25", "-1000000"] {
        assert_eq!(Number::parse(n).expect("number").text(), n);
    }
    for (n, lua) in [("inf", "math.huge"), ("-inf", "-math.huge"), ("NaN", "(0/0)"), ("2", "2")] {
        let parsed = Number::parse(n).expect("number");
        assert_eq!((parsed.text(), parsed.to_lua().as_str()), (n, lua));
    }
    for x in [0.0, -0.0, 0.1, -1e21, 1e-7, f64::MAX, f64::MIN_POSITIVE, f64::INFINITY, f64::NAN] {
        assert!(Number::parse(&x.to_string()).is_some(), "{x}");
    }
    for s in ["", "-", ".", "1.", ".5", "--1", "+1", "1e9", "nan", "infinity", "0x1", "1 ", "1.2.3"] {
        assert!(Number::parse(s).is_none(), "{s}");
    }
}

#[test]
fn predicates_are_written_as_conditions() {
    let p = Predicate::Equals { field: "sta'tus".into(), value: "pending".into() };
    assert_eq!(p.to_lua(), "(redis.call('HGET', KEYS[3], 'sta\\'tus') == 'pending')");
    let p = Predicate::FieldGt { field: "items".into(), value: number("0") };
    assert_eq!(
        p.to_lua(),
        "(tonumber(redis.call('HGET', KEYS[3], 'items')) ~= nil and tonumber(redis.call('HGET', KEYS[3], 'items')) > 0)"
    );
    let p = Predicate::Absent { field: "gone".into() };
    assert_eq!(p.to_lua(), "(redis.call('HEXISTS', KEYS[3], 'gone') == 0)");
}

#[test]
fn zero_predicates_are_rejected() {
    let e = manager().acquire_where("k").acquire().unwrap_err();
    assert_eq!(e.message(), "invalid config: at least one predicate required");
}

#[test]
fn semantic_grants_compose_one_script() {
    let guard = SemanticGuard::new("orders/42")
        .field_equals("status", "pending")
        .field_gt("items", number("0"))
        .field_absent("cancelled_at")
        .ttl(Span::from_secs(10))
        .with_watchdog();
    assert!(guard.watchdog);
    let p = PendingSemantic { guard, owner: owner() };
    let i = p.invocation();
    let source = match &i.program {
        Program::Composed(s) => s.clone(),
        other => panic!("{other:?}"),
    };
    assert_eq!(
        source,
        r#"
if redis.call('EXISTS', KEYS[3]) == 0 then return {0, 0} end
if redis.call('EXISTS', KEYS[1]) == 1 then return {0, 0} end
if not ((redis.call('HGET', KEYS[3], 'status') == 'pending') and (tonumber(redis.call('HGET', KEYS[3], 'items')) ~= nil and tonumber(redis.call('HGET', KEYS[3], 'items')) > 0) and (redis.call('HEXISTS', KEYS[3], 'cancelled_at') == 0)) then return {0, 0} end
redis.call('SET', KEYS[1], ARGV[1], 'PX', ARGV[2])
local fence = redis.call('INCR', KEYS[2])
redis.call('PEXPIRE', KEYS[2], ARGV[3])
return {1, fence}
"#
    );
    assert_eq!(i.keys, ["orders/42", "{orders/42}:fence", "orders/42:data"]);
    assert!(matches!(&i.args[1], Arg::Int(10_000)));
    assert!(matches!(&i.args[2], Arg::Int(100_000)));
    assert_eq!(i.args.len(), 3);
    let h = p.complete(&manager(), Ok((1, 8))).expect("grant");
    assert_eq!(h.fence().value(), 8);
    let p = SemanticGuard::new("k")
        .where_(Predicate::Absent { field: "f".into() })
        .acquire_as(owner())
        .expect("one predicate");
    assert_eq!(p.owner, owner());
    assert!(matches!(p.complete(&manager(), Ok((0, 0))), Err(Error::Held { .. })));
}
