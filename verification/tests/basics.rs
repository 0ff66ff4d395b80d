//! Text, spans, identities, fences, options, polling and the watchdog.

use palisade::error::{backend, held, invalid, lost, timeout, Error};
use palisade::fencing::FencingToken;
use palisade::options::{check_floor, LockOptions, SafetyPolicy};
use palisade::owner::OwnerId;
use palisade::poll::{deadline_after, PollStep, Waiting};
use palisade::span::Span;
use palisade::text::{
    ascii_lower, decimal_of, is_before, is_blank, is_empty, same, starts_with, string_of,
    strip_prefix,
};
use palisade::watchdog::Renewal::{self, Failed, NotOwner, Renewed};
use palisade::watchdog::{Watchdog, WatchdogStep};

#[test]
fn decimals_are_written_without_leading_zeros() {
    for n in [0, 7, 10, 42, 100, 1_000_001, u64::MAX] {
        assert_eq!(decimal_of(n), n.to_string());
    }
}

#[test]
fn strings_are_taken_apart() {
    assert_eq!(strip_prefix("Bearer abc", "Bearer "), Some("abc".to_string()));
    assert_eq!(strip_prefix("bearer abc", "Bearer "), None);
    assert_eq!(strip_prefix("Bearer ", "Bearer "), Some(String::new()));
    assert!(starts_with("orders/42", "orders/"));
    assert!(starts_with("orders/42", ""));
    assert!(!starts_with("order", "orders"));
    assert!(same("äß", "äß"));
    assert!(!same("a", "b"));
    assert!(!same("a", "aa"));
    assert!(is_empty(""));
    assert!(!is_empty(" "));
    assert_eq!(string_of(&vec!['a', 'b', 'c'], 1), "bc");
    assert_eq!(ascii_lower("BaLanced Ä"), "balanced Ä");
}

#[test]
fn white_space_is_what_char_says() {
    for n in 0..=0x10ffffu32 {
        if let Some(c) = char::from_u32(n) {
            let listed = matches!(n, 9..=13 | 0x20 | 0x85 | 0xa0 | 0x1680 | 0x2000..=0x200a
                | 0x2028 | 0x2029 | 0x202f | 0x205f | 0x3000);
            assert_eq!(c.is_whitespace(), listed, "{n:#x}");
        }
    }
    assert!(is_blank(" \t\u{3000}"));
    assert!(is_blank(""));
    assert!(!is_blank(" x "));
}

#[test]
fn order_of_strings_is_that_of_str() {
    let words = ["", "a", "ab", "b", "B", "ä", "z", "\u{1f600}", "a\u{0}"];
    for a in words {
        for b in words {
            assert_eq!(is_before(a, b), a < b, "{a:?} {b:?}");
        }
    }
}

#[test]
fn spans_print_like_durations() {
    assert_eq!(Span::from_millis(1).debug_text(), "1ms");
    assert_eq!(Span::from_millis(1500).debug_text(), "1.5s");
    assert_eq!(Span::from_secs(30).debug_text(), "30s");
    assert_eq!(Span::new(0, 1).debug_text(), "1ns");
    assert_eq!(Span::new(0, 2_500).debug_text(), "2.5µs");
}

#[test]
fn spans_convert() {
    let s = Span::new(2, 345_678_901);
    assert_eq!(s.as_secs(), 2);
    assert_eq!(s.subsec_nanos(), 345_678_901);
    assert_eq!(s.as_millis(), 2345);
    assert_eq!(s.as_nanos(), 2_345_678_901);
    assert_eq!(s.divided_by(3).as_nanos(), 781_892_967);
    assert_eq!(Span::from_secs(2).min(Span::from_millis(1999)).as_millis(), 1999);
    let most = std::time::Duration::MAX;
    let s = Span::new(most.as_secs(), most.subsec_nanos());
    assert_eq!(s.as_millis(), most.as_millis() as u64);
}

#[test]
fn identities_read_back_and_are_version_seven() {
    let owner = OwnerId::generate();
    let token = owner.token();
    assert_eq!(token.len(), 36);
    assert_eq!(OwnerId::parse(&token), Some(owner));
    assert_eq!(&token[14..15], "7");
    assert!(matches!(&token[19..20], "8" | "9" | "a" | "b"));
    assert_ne!(OwnerId::generate(), OwnerId::generate());
    assert_eq!(
        OwnerId::from_bits(0x0123_4567_89ab_cdef_0011_2233_4455_6677).token(),
        "01234567-89ab-cdef-0011-223344556677"
    );
    assert_eq!(
        OwnerId::parse("0123456789ABCDEF0011223344556677"),
        Some(OwnerId::from_bits(0x0123_4567_89ab_cdef_0011_2233_4455_6677))
    );
    assert_eq!(OwnerId::parse("not a uuid"), None);
    assert_eq!(OwnerId::parse(""), None);
}

#[test]
fn newer_fences_supersede() {
    let a = FencingToken::new(4);
    let b = FencingToken::new(5);
    assert!(b.supersedes(a));
    assert!(!a.supersedes(b));
    assert!(!a.supersedes(a));
    assert!(a.supersedes(FencingToken::zero()));
    assert_eq!(b.value(), 5);
}

#[test]
fn stale_writes_are_rejected_by_fence() {
    let mut last = FencingToken::zero();
    let mut taken = Vec::new();
    for fence in [1, 3, 2, 3, 4, 1] {
        let f = FencingToken::new(fence);
        if f.supersedes(last) {
            last = f;
            taken.push(fence);
        }
    }
    assert_eq!(taken, [1, 3, 4]);
}

#[test]
fn options_have_defaults_and_a_floor() {
    let o = LockOptions::default();
    assert!(o.ttl.is_none());
    assert_eq!(o.lease_or(Span::from_secs(7)).as_secs(), 7);
    assert_eq!(o.watchdog, None);
    assert_eq!(o.safety_policy, SafetyPolicy::Balanced);
    assert_eq!(o.checked_lease(Span::from_millis(10)).unwrap().as_millis(), 10);
    assert!(o.checked_lease(Span::from_millis(9)).is_err());
    let o = o.with_ttl(Span::from_millis(1)).with_watchdog(true);
    assert_eq!(o.watchdog, Some(true));
    match o.checked_lease(Span::from_secs(30)) {
        Err(Error::InvalidConfig(m)) => assert_eq!(m, "ttl 1ms is below the 10ms floor"),
        other => panic!("{other:?}"),
    }
    assert!(check_floor("x ", &Span::from_millis(10)).is_ok());
    assert!(check_floor("x ", &Span::new(0, 9_999_999)).is_err());
}

#[test]
fn errors_tell_what_happened() {
    assert_eq!(held("k").message(), "lock is held: k");
    assert_eq!(timeout("k").message(), "timed out waiting for lock: k");
    assert_eq!(lost("k", 7).message(), "lock lost: k (fence 7)");
    assert_eq!(backend("probe failed: ", "boom").message(), "backend error: probe failed: boom");
    assert_eq!(invalid("no").message(), "invalid config: no");
    assert!(held("k").is_held());
    assert!(!timeout("k").is_held());
}

fn sleep_of<H: std::fmt::Debug>(step: PollStep<H>) -> u128 {
    match step {
        PollStep::Sleep(s) => s.as_nanos(),
        other => panic!("{other:?}"),
    }
}

#[test]
fn clipped_waits_sleep_to_the_deadline_at_most() {
    let w = Waiting::start_clipped("k", &Span::from_millis(150), 1_000);
    assert_eq!(w.deadline, Some(150_001_000));
    assert_eq!(sleep_of(w.after::<()>(Err(held("k")), 1_000)), 20_000_000);
    assert_eq!(sleep_of(w.after::<()>(Err(held("k")), 149_001_000)), 1_000_000);
    match w.after::<()>(Err(held("k")), 150_001_000) {
        PollStep::Done(Err(Error::Timeout { key })) => assert_eq!(key, "k"),
        other => panic!("{other:?}"),
    }
    assert!(matches!(w.after(Ok(5), u128::MAX), PollStep::Done(Ok(5))));
    assert!(matches!(
        w.after::<()>(Err(backend("a", "b")), 0),
        PollStep::Done(Err(Error::Backend(_)))
    ));
}

#[test]
fn whole_waits_sleep_full_intervals() {
    let w = Waiting::start("k", &Span::from_millis(30), 0);
    assert_eq!(sleep_of(w.after::<()>(Err(held("k")), 29_999_999)), 20_000_000);
    assert!(w.sleep_at(30_000_000).is_none());
    assert_eq!(deadline_after(u128::MAX, &Span::from_millis(1)), None);
    let endless = Waiting::start("k", &Span::from_millis(1), u128::MAX);
    assert_eq!(sleep_of(endless.after::<()>(Err(held("k")), u128::MAX)), 20_000_000);
}

#[test]
fn jitter_lengthens_sleeps_by_less_than_an_interval() {
    let w = Waiting::start("k", &Span::from_secs(1), 0);
    assert_eq!(sleep_of(w.after_jittered::<()>(Err(held("k")), 0, 0)), 20_000_000);
    assert_eq!(sleep_of(w.after_jittered::<()>(Err(held("k")), 0, 19_999_999)), 39_999_999);
    assert_eq!(sleep_of(w.after_jittered::<()>(Err(held("k")), 0, 20_000_000)), 20_000_000);
    assert!(matches!(
        w.after_jittered::<()>(Err(held("k")), 1_000_000_000, 5),
        PollStep::Done(Err(Error::Timeout { .. }))
    ));
}

#[test]
fn watchdogs_give_up_on_loss_or_two_failures_in_a_row() {
    let runs: [(&[Renewal], bool); 6] = [
        (&[], false),
        (&[Renewed, Failed, Renewed, Failed], false),
        (&[Renewed, Failed, Failed], true),
        (&[NotOwner], true),
        (&[Failed, NotOwner], true),
        (&[NotOwner, Renewed], true),
    ];
    for (outcomes, lost) in runs {
        let mut dog = Watchdog::new();
        let mut last = WatchdogStep::Continue;
        for o in outcomes {
            last = dog.after_renewal(*o);
        }
        assert_eq!(last == WatchdogStep::Lost, lost, "{outcomes:?}");
    }
    assert_eq!(Watchdog::period(&Span::from_millis(300)).as_millis(), 100);
    assert!(Watchdog::should_renew(true, false));
    assert!(!Watchdog::should_renew(true, true));
    assert!(!Watchdog::should_renew(false, false));
}
