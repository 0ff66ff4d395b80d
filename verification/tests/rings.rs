//! Multi-locks and quorum locks.

use palisade::error::Error;
use palisade::multi::{sorted_keys, MultiAcquire, MultiLockHandle, MultiStep};
use palisade::options::LockOptions;
use palisade::owner::OwnerId;
use palisade::poll::PollStep;
use palisade::redlock::{
    NodeAnswer, RedlockConfig, RedlockHandle, RedlockManager, RingStep, RoundEnd,
};
use palisade::single::{RedisLockHandle, RedisLockManager};
use palisade::span::Span;
use palisade::watchdog::Renewal;

fn manager() -> RedisLockManager {
    RedisLockManager { default_ttl: Span::from_secs(30), watchdog_default: false }
}

fn keys(names: &[&str]) -> Vec<String> {
    names.iter().map(|n| n.to_string()).collect()
}

fn begin(names: &[&str]) -> MultiAcquire {
    manager()
        .try_lock_all(&keys(names), &LockOptions::new(), &Span::from_millis(100), 0)
        .expect("valid")
}

fn grant(m: &MultiAcquire, fence: i64) -> Result<RedisLockHandle, Error> {
    m.next_attempt(&manager()).expect("valid").complete(Ok((1, fence)))
}

fn held(m: &MultiAcquire) -> Result<RedisLockHandle, Error> {
    m.next_attempt(&manager()).expect("valid").complete(Ok((0, 0)))
}

fn three() -> MultiLockHandle {
    let mut m = begin(&["b", "c", "a"]);
    for fence in 1..=3 {
        assert!(!m.complete());
        let g = grant(&m, fence);
        assert!(matches!(m.took(g), MultiStep::Taken));
    }
    assert!(m.complete());
    m.finish()
}

#[test]
fn keys_are_sorted() {
    let mut expected = keys(&["b", "a", "ab", "", "ä", "B", "a"]);
    let sorted = sorted_keys(&expected);
    expected.sort();
    assert_eq!(sorted, expected);
}

#[test]
fn multi_locks_take_all_keys_in_order() {
    let m = three();
    assert_eq!(m.keys(), ["a", "b", "c"]);
    let fences: Vec<u64> = m.fences().iter().map(|f| f.value()).collect();
    assert_eq!(fences, [1, 2, 3]);
    assert!(begin(&[]).complete());
}

#[test]
fn common_keys_come_in_one_order_for_everyone() {
    let a = begin(&["z", "m", "a"]);
    let b = begin(&["m", "q", "z"]);
    let common = |m: &MultiAcquire| -> Vec<String> {
        m.sorted.iter().filter(|k| *k == "m" || *k == "z").cloned().collect()
    };
    assert_eq!(common(&a), common(&b));
}

#[test]
fn duplicate_keys_and_short_leases_are_refused() {
    let e = manager()
        .try_lock_all(&keys(&["a", "b", "a"]), &LockOptions::new(), &Span::from_secs(1), 0)
        .unwrap_err();
    assert_eq!(e.message(), "invalid config: multi-lock received duplicate keys");
    let short = LockOptions::new().with_ttl(Span::from_millis(1));
    assert!(manager().try_lock_all(&keys(&["a"]), &short, &Span::from_secs(1), 0).is_err());
}

#[test]
fn contention_gives_back_what_was_taken_in_reverse() {
    let mut m = begin(&["a", "b", "c"]);
    for fence in 1..=2 {
        let g = grant(&m, fence);
        m.took(g);
    }
    let h = held(&m);
    let calls = match m.took(h) {
        MultiStep::Retreat(calls, Error::Held { .. }) => calls,
        other => panic!("{other:?}"),
    };
    let released: Vec<&str> = calls.iter().map(|f| f.release.keys[0].as_str()).collect();
    assert_eq!(released, ["b", "a"]);
    assert!(m.taken.is_empty());
    assert!(matches!(m.after_retreat(99_999_999), PollStep::Sleep(_)));
    let h = held(&m);
    assert!(matches!(m.took(h), MultiStep::Retreat(_, Error::Held { .. })));
    match m.after_retreat(100_000_000) {
        PollStep::Done(Err(Error::Timeout { key })) => {
            assert_eq!(key, r#"multi:["a", "b", "c"]"#)
        }
        other => panic!("{other:?}"),
    }
}

#[test]
fn failures_of_the_store_are_rolled_back_and_retried() {
    let mut m = begin(&["a", "b"]);
    let g = grant(&m, 1);
    m.took(g);
    let failed = m.next_attempt(&manager()).expect("valid").complete(Err("down".into()));
    match m.took(failed) {
        MultiStep::Retreat(calls, Error::Backend(_)) => {
            assert_eq!(calls.len(), 1);
            assert!(matches!(m.after_retreat(0), PollStep::Sleep(_)));
        }
        other => panic!("{other:?}"),
    }
    let mut m = begin(&["a"]);
    assert!(matches!(
        m.took(Err(Error::InvalidConfig("x".into()))),
        MultiStep::Failed(Error::InvalidConfig(_))
    ));
}

#[test]
fn multi_locks_are_released_in_reverse_and_once() {
    let mut m = three();
    let sent = m.release_all();
    let order: Vec<usize> = sent.iter().map(|r| r.index).collect();
    assert_eq!(order, [2, 1, 0]);
    assert_eq!(sent[0].calls.release.keys[0], "c");
    assert!(m.released_all(&sent, vec![Ok(1), Ok(1), Ok(1)]).is_ok());
    match m.released_all(&sent, vec![Ok(1), Ok(0), Err("x".into())]) {
        Err(Error::Lost { key, fence }) => assert_eq!((key.as_str(), fence), ("b", 2)),
        other => panic!("{other:?}"),
    }
    let again = m.release_all();
    assert!(again.is_empty());
    assert!(m.released_all(&again, vec![]).is_ok());
    let mut m = three();
    m.handles[1].disarm();
    let order: Vec<usize> = m.release_all().iter().map(|r| r.index).collect();
    assert_eq!(order, [2, 0]);
}

fn connect(names: &[&str]) -> RedlockManager {
    let mut dial = RedlockManager::connect(RedlockConfig::new(keys(names))).expect("sound");
    for name in names {
        match dial.next_step().expect("readable") {
            RingStep::Dial(url) => assert_eq!(url, *name),
            other => panic!("{other:?}"),
        }
        dial.dialled(Ok(())).expect("reached");
    }
    match dial.next_step().expect("done") {
        RingStep::Done(m) => m,
        other => panic!("{other:?}"),
    }
}

const FIVE: [&str; 5] = ["redis://a", "redis://b", "redis://c", "redis://d", "redis://e"];

fn ring() -> RedlockManager {
    connect(&FIVE[..3])
}

#[test]
fn rings_have_at_least_three_masters() {
    let e = RedlockConfig::new(keys(&["a", "b"])).validate().unwrap_err();
    assert_eq!(
        e.message(),
        "invalid config: redlock needs at least 3 independent masters, got 2"
    );
    let e = RedlockConfig::new(keys(&["a", " ", "c"])).validate().unwrap_err();
    assert_eq!(e.message(), "invalid config: empty redlock node url");
    let m = ring();
    assert_eq!((m.nodes, m.quorum, m.default_ttl.as_secs()), (3, 2, 30));
    assert_eq!(connect(&FIVE).quorum, 3);
    assert_eq!(RedlockConfig::new(keys(&FIVE)).node_count(), 5);
    assert!(RedlockManager::connect(RedlockConfig::new(vec![])).is_err());
}

#[test]
fn connecting_to_a_ring_stops_at_the_first_failure() {
    let c = RedlockConfig::new(keys(&["redis://a", "odd", "redis://c"]));
    let mut dial = RedlockManager::connect(c).expect("sound");
    assert_eq!(
        dial.dialled(Err("w".into())).unwrap_err().message(),
        "backend error: redlock connect redis://a: w"
    );
    dial.dialled(Ok(())).expect("reached");
    assert_eq!(
        dial.next_step().unwrap_err().message(),
        "invalid config: bad redlock url `odd`: Redis URL did not parse- InvalidClientConfig"
    );
    assert_eq!(
        dial.step_after(Some("w".into())).unwrap_err().message(),
        "invalid config: bad redlock url `odd`: w"
    );
}

fn round(answers: Vec<NodeAnswer>, in_time: bool) -> RoundEnd {
    let mut r = ring().try_lock_as("k", OwnerId::from_bits(1), &LockOptions::new()).expect("valid");
    assert_eq!(r.owner.bits, 1);
    assert_eq!(r.invocation().keys, ["k", "{k}:fence"]);
    for a in answers {
        assert!(r.answered(a).is_none());
    }
    r.conclude(in_time)
}

#[test]
fn quorums_grant_in_time_only() {
    use_quorum(round(
        vec![NodeAnswer::Answer(1, 9), NodeAnswer::TimedOut, NodeAnswer::Answer(2, 4)],
        true,
    ));
    for (answers, in_time, taken) in [
        (vec![NodeAnswer::Answer(1, 9), NodeAnswer::TimedOut, NodeAnswer::Answer(0, 0)], true, vec![0]),
        (vec![NodeAnswer::Answer(1, 9), NodeAnswer::Answer(1, 9), NodeAnswer::Answer(0, 0)], false, vec![0, 1]),
        (vec![NodeAnswer::Answer(0, 0), NodeAnswer::Answer(0, 0), NodeAnswer::Answer(1, 1)], true, vec![2]),
    ] {
        match round(answers, in_time) {
            RoundEnd::RolledBack(nodes, call, Error::Held { key }) => {
                assert_eq!(nodes, taken);
                assert_eq!(call.keys[0], "k");
                assert_eq!(key, "k");
            }
            other => panic!("{other:?}"),
        }
    }
}

fn use_quorum(end: RoundEnd) {
    let p = match end {
        RoundEnd::Quorum(p) => p,
        other => panic!("{other:?}"),
    };
    assert_eq!(p.allocate_fence().name, "INCR");
    let h = p.make_handle(Ok(77)).expect("fence");
    assert_eq!((h.key(), h.fence().value(), h.is_lost()), ("k", 77, false));
}

#[test]
fn failed_nodes_end_a_round_at_once() {
    let mut r = ring().try_lock("k", &LockOptions::new()).expect("valid");
    assert!(r.answered(NodeAnswer::Answer(1, 1)).is_none());
    match r.answered(NodeAnswer::Failed("boom".into())) {
        Some(RoundEnd::RolledBack(taken, call, why)) => {
            assert_eq!(taken, [0]);
            assert_eq!(call.keys[0], "k");
            assert_eq!(why.message(), "backend error: redlock node 1: boom");
        }
        other => panic!("{other:?}"),
    }
}

#[test]
fn slices_are_a_quarter_of_the_lease_but_not_too_short() {
    let of = |ms: u64| {
        let o = LockOptions::new().with_ttl(Span::from_millis(ms));
        ring().try_lock("k", &o).expect("valid").slice().as_millis()
    };
    assert_eq!(of(2_000), 500);
    assert_eq!(of(300), 100);
    assert!(ring().try_lock_default("k").is_ok());
}

fn quorum_handle() -> RedlockHandle {
    match round(vec![NodeAnswer::Answer(1, 1), NodeAnswer::Answer(1, 1), NodeAnswer::TimedOut], true) {
        RoundEnd::Quorum(p) => p.make_handle(Ok(5)).expect("fence"),
        other => panic!("{other:?}"),
    }
}

#[test]
fn renewals_need_a_quorum() {
    let mut h = quorum_handle();
    assert!(h.extend(&Span::from_secs(2)).is_ok());
    assert!(h.extend(&Span::from_millis(2)).is_err());
    assert_eq!(h.fire_extend(&vec![Some(1), None, Some(1)]), Renewal::Renewed);
    assert_eq!(h.fire_extend(&vec![Some(1), Some(0), None]), Renewal::NotOwner);
    assert_eq!(h.fire_extend(&vec![Some(1), None, None]), Renewal::Failed);
    assert!(h.extended(&vec![Some(1), Some(1), Some(0)]).is_ok());
    assert_eq!(
        h.extended(&vec![None, None, None]).unwrap_err().message(),
        "backend error: extend round failed on all nodes"
    );
    assert!(!h.is_lost());
    assert!(matches!(h.extended(&vec![Some(0), None, None]), Err(Error::Lost { fence: 5, .. })));
    assert!(h.is_lost());
}

#[test]
fn one_confirmed_release_is_enough() {
    let mut h = quorum_handle();
    assert!(h.release().is_some());
    assert!(h.release().is_none());
    assert!(matches!(h.extend(&Span::from_secs(2)), Err(Error::Lost { .. })));
    assert!(h.run_release(&vec![Some(0), Some(1), None]).is_ok());
    assert!(matches!(h.run_release(&vec![Some(0), None, None]), Err(Error::Lost { .. })));
    assert_eq!(
        h.run_release(&vec![None, Some(7), None]).unwrap_err().message(),
        "backend error: release failed on all nodes"
    );
}

#[test]
fn two_quorums_of_five_share_a_node() {
    let n = 5u32;
    let quorum = connect(&FIVE).quorum as u32;
    for a in 0u32..(1 << n) {
        for b in 0u32..(1 << n) {
            if a.count_ones() >= quorum && b.count_ones() >= quorum {
                assert_ne!(a & b, 0);
            }
        }
    }
}
