//! Times, texts, tokens, errors and settings, and the histories made of them.

use vstd::prelude::*;

use crate::config::RedisConfig;
use crate::error::{backend, held, invalid, lost, timeout, Error, ErrorV};
use crate::fencing::{fenced_store, FencingToken};
use crate::lattice::Tier;
use crate::options::{check_floor, LockOptions, SafetyPolicy};
use crate::owner::OwnerId;
use crate::poll::{PollStep, Waiting};
use crate::realtime::{check_client_history, events_of, history_of, in_time_order, placed,
    Completed, Event, EventKind, HistoryEntry, OpKind};
use crate::span::{elapsed_between, Span};
use crate::table::Table;
use crate::text::{ascii_lower, before, blank, decimal, decimal_of, digit, ends_with, holds_part,
    is_before, is_blank, same, starts_with, strip_prefix, white};
use crate::watchdog::{Renewal, Watchdog, WatchdogStep};

verus! {

/// Spans are what they are made of, and are read in whole units.
pub proof fn spans_are_read_as_they_are_made(
    secs: u64,
    ms: u64,
    s: Span,
    m: Span,
    read_secs: u64,
    read_ms: u64,
    nanos: u128,
)
    requires
        call_ensures(Span::from_secs, (secs,), s),
        call_ensures(Span::from_millis, (ms,), m),
        call_ensures(Span::as_secs, (&s,), read_secs),
        call_ensures(Span::as_millis, (&m,), read_ms),
        call_ensures(Span::as_nanos, (&m,), nanos),
    ensures
        read_secs == secs,
        read_ms == ms,
        nanos == ms * 1_000_000,
        s@ == secs * 1_000_000_000,
{
    assert((ms * 1_000_000) / 1_000_000 == ms);
    assert((secs * 1_000_000_000) / 1_000_000_000 == secs);
}

/// Spans are compared and divided as the times they are.
pub proof fn spans_are_compared_as_times(
    a: Span,
    b: Span,
    less: bool,
    m: Span,
    parts: u32,
    d: Span,
    whole: u64,
    rest: u32,
    ms: u64,
)
    requires
        parts > 0,
        call_ensures(Span::less_than, (&a, &b), less),
        call_ensures(Span::min, (a, b), m),
        call_ensures(Span::divided_by, (&a, parts), d),
        call_ensures(Span::as_secs, (&a,), whole),
        call_ensures(Span::subsec_nanos, (&a,), rest),
        call_ensures(Span::as_millis, (&a,), ms),
    ensures
        less <==> a@ < b@,
        m@ <= a@ && m@ <= b@ && (m@ == a@ || m@ == b@),
        d@ * parts <= a@ < (d@ + 1) * parts,
        whole * 1_000_000_000 + rest == a@ && rest < 1_000_000_000,
        a@ / 1_000_000 <= u64::MAX ==> ms * 1_000_000 <= a@ < (ms + 1) * 1_000_000,
{
    let n = a@ as int;
    let p = parts as int;
    assert((n / p) * p <= n < (n / p + 1) * p) by (nonlinear_arith)
        requires
            p > 0,
            n >= 0,
    ;
}

/// Time that has not passed is none.
pub proof fn elapsed_time_is_never_negative(earlier: u128, later: u128, r: u128)
    requires
        call_ensures(elapsed_between, (earlier, later), r),
    ensures
        earlier <= later ==> earlier + r == later,
        earlier > later ==> r == 0,
{
}

/// The number that decimal digits stand for.
pub open spec fn value_of(s: Seq<char>) -> int
    decreases s.len(),
{
    if s.len() == 0 {
        0
    } else {
        value_of(s.drop_last()) * 10 + (s.last() as int - '0' as int)
    }
}

/// A number in decimal reads back as the number, and has no zero in front.
pub proof fn decimals_read_back(n: nat)
    ensures
        value_of(decimal(n)) == n,
        decimal(n).len() > 0,
        n > 0 ==> decimal(n)[0] != '0',
        forall|i: int| 0 <= i < decimal(n).len() ==> '0' <= #[trigger] decimal(n)[i] <= '9',
    decreases n,
{
    reveal_with_fuel(value_of, 2);
    if n < 10 {
        assert(decimal(n).drop_last() =~= seq![]);
        assert(decimal(n).last() == digit(n));
    } else {
        decimals_read_back(n / 10);
        let front = decimal(n / 10);
        assert(decimal(n).drop_last() =~= front);
        assert(decimal(n).last() == digit(n % 10));
        assert(decimal(n)[0] == front[0]);
    }
}

/// Numbers are written in decimal.
pub proof fn numbers_are_written_in_decimal(n: u64, r: String)
    requires
        call_ensures(decimal_of, (n,), r),
    ensures
        value_of(r@) == n,
        r@ == decimal(n as nat),
{
    decimals_read_back(n as nat);
}

/// Lowering changes the capital letters of ASCII and nothing else.
pub proof fn lowering_changes_capitals_only(s: &str, r: String, i: int)
    requires
        0 <= i < s@.len(),
        call_ensures(ascii_lower, (s,), r),
    ensures
        r@.len() == s@.len(),
        'A' <= s@[i] <= 'Z' ==> r@[i] as int == s@[i] as int + 32,
        !('A' <= s@[i] <= 'Z') ==> r@[i] == s@[i],
{
}

/// A text is blank if it has nothing but white space: among the characters of
/// ASCII, the blank and those from tab to carriage return.
pub proof fn blank_texts_are_white(s: &str, r: bool)
    requires
        call_ensures(is_blank, (s,), r),
    ensures
        s@.len() == 0 ==> r,
        forall|i: int|
            0 <= i < s@.len() && (#[trigger] s@[i] as int) < 128 && !(9 <= s@[i] as int <= 13
                || s@[i] == ' ') ==> !r,
        (forall|i: int|
            0 <= i < s@.len() ==> 9 <= #[trigger] (s@[i] as int) <= 13 || s@[i] == ' ') ==> r,
{
    if forall|i: int| 0 <= i < s@.len() ==> 9 <= #[trigger] (s@[i] as int) <= 13 || s@[i] == ' ' {
        assert forall|i: int| 0 <= i < s@.len() implies white(#[trigger] s@[i]) by {
            let n = s@[i] as int;
            assert(9 <= n <= 13 || n == 32);
        }
    }
    assert forall|i: int|
        0 <= i < s@.len() && (#[trigger] s@[i] as int) < 128 && !(9 <= s@[i] as int <= 13 || s@[i]
            == ' ') implies !r by {
        assert(!white(s@[i]));
    }
}

/// Texts are compared, and found at the front, at the end and within, as their
/// characters stand.
pub proof fn texts_are_found_where_they_stand(
    a: &str,
    b: &str,
    equal: bool,
    front: bool,
    end: bool,
    within: bool,
    rest: Option<String>,
)
    requires
        call_ensures(same, (a, b), equal),
        call_ensures(starts_with, (a, b), front),
        call_ensures(ends_with, (a, b), end),
        call_ensures(holds_part, (a, b), within),
        call_ensures(strip_prefix, (a, b), rest),
    ensures
        equal <==> a@ == b@,
        front <==> exists|t: Seq<char>| a@ == #[trigger] (b@ + t),
        end <==> exists|t: Seq<char>| a@ == #[trigger] (t + b@),
        within <==> exists|t: Seq<char>, u: Seq<char>| a@ == #[trigger] (t + b@ + u),
        rest is Some <==> front,
        rest matches Some(t) ==> a@ == b@ + t@,
{
    let n = b@.len() as int;
    let m = a@.len() as int;
    if front {
        assert(a@ =~= b@ + a@.skip(n));
    }
    if exists|t: Seq<char>| a@ == #[trigger] (b@ + t) {
        let t = choose|t: Seq<char>| a@ == #[trigger] (b@ + t);
        assert(b@ =~= a@.subrange(0, n));
    }
    if end {
        assert(a@ =~= a@.subrange(0, m - n) + b@);
    }
    if exists|t: Seq<char>| a@ == #[trigger] (t + b@) {
        let t = choose|t: Seq<char>| a@ == #[trigger] (t + b@);
        assert(b@ =~= a@.subrange(m - n, m));
    }
    if within {
        let at = choose|at: int| crate::text::found_at(a@, b@, at);
        assert(a@ =~= a@.subrange(0, at) + b@ + a@.skip(at + n));
    }
    if exists|t: Seq<char>, u: Seq<char>| a@ == #[trigger] (t + b@ + u) {
        let (t, u) = choose|t: Seq<char>, u: Seq<char>| a@ == #[trigger] (t + b@ + u);
        assert(b@ =~= a@.subrange(t.len() as int, t.len() + n));
        assert(crate::text::found_at(a@, b@, t.len() as int));
    }
}

/// Texts stand in the order of a dictionary: what comes first decides, and a
/// text stands before what continues it.
pub proof fn texts_stand_in_dictionary_order(
    common: Seq<char>,
    x: char,
    y: char,
    a: Seq<char>,
    b: Seq<char>,
)
    ensures
        before(common, common + seq![x] + a),
        !before(common + seq![x] + a, common),
        x < y ==> before(common + seq![x] + a, common + seq![y] + b),
        x > y ==> !before(common + seq![x] + a, common + seq![y] + b),
    decreases common.len(),
{
    let l = common + seq![x] + a;
    let r = common + seq![y] + b;
    if common.len() > 0 {
        let c = common.drop_first();
        texts_stand_in_dictionary_order(c, x, y, a, b);
        assert(l.drop_first() =~= c + seq![x] + a);
        assert(r.drop_first() =~= c + seq![y] + b);
    }
}

/// The order of two texts is told as it is.
pub proof fn order_is_told_as_it_is(a: &str, b: &str, r: bool)
    requires
        call_ensures(is_before, (a, b), r),
    ensures
        r <==> before(a@, b@),
{
}

/// A token says its owner and nothing else: it reads back, and no two owners
/// have the same.
pub proof fn tokens_say_their_owner(
    a: OwnerId,
    b: OwnerId,
    s: String,
    t: String,
    read: &str,
    back: Option<OwnerId>,
)
    requires
        call_ensures(OwnerId::token, (&a,), s),
        call_ensures(OwnerId::token, (&b,), t),
        read@ == s@,
        call_ensures(OwnerId::parse, (read,), back),
    ensures
        back == Some(a),
        s@ == t@ ==> a == b,
        s@.len() == 36,
{
}

/// A fence supersedes exactly the smaller ones.
pub proof fn larger_fences_supersede(a: u64, b: u64, x: FencingToken, y: FencingToken, r: bool, v: u64)
    requires
        call_ensures(FencingToken::new, (a,), x),
        call_ensures(FencingToken::new, (b,), y),
        call_ensures(FencingToken::supersedes, (&x, y), r),
        call_ensures(FencingToken::value, (&x,), v),
    ensures
        r <==> a > b,
        v == a,
{
}

/// A fenced store ends with the newest fence that it was offered.
pub proof fn fenced_stores_keep_the_newest(last: u64, writes: Seq<u64>)
    ensures
        fenced_store(last, writes) >= last,
        forall|i: int| 0 <= i < writes.len() ==> fenced_store(last, writes) >= #[trigger] writes[i],
        fenced_store(last, writes) == last || writes.contains(fenced_store(last, writes)),
    decreases writes.len(),
{
    if writes.len() > 0 {
        let front = writes.drop_last();
        fenced_stores_keep_the_newest(last, front);
        let was = fenced_store(last, front);
        if front.contains(was) {
            let i = choose|i: int| 0 <= i < front.len() && front[i] == was;
            assert(writes[i] == was);
        }
        assert(writes[writes.len() - 1] == writes.last());
        assert forall|i: int| 0 <= i < writes.len() implies fenced_store(last, writes)
            >= #[trigger] writes[i] by {
            if i < writes.len() - 1 {
                assert(front[i] == writes[i]);
            }
        }
    }
}

/// Errors say what happened and to which key.
pub proof fn errors_say_what_happened(
    key: &str,
    fence: u64,
    a: Error,
    b: Error,
    c: Error,
    said_a: String,
    said_b: String,
    said_c: String,
)
    requires
        call_ensures(held, (key,), a),
        call_ensures(timeout, (key,), b),
        call_ensures(lost, (key, fence), c),
        call_ensures(Error::message, (&a,), said_a),
        call_ensures(Error::message, (&b,), said_b),
        call_ensures(Error::message, (&c,), said_c),
    ensures
        said_a@ == "lock is held: "@ + key@,
        said_b@ == "timed out waiting for lock: "@ + key@,
        said_c@ == "lock lost: "@ + key@ + " (fence "@ + decimal(fence as nat) + ")"@,
        a@ is Held && b@ is Timeout && c@ is Lost,
{
}

/// Failures say what failed and why; only contention counts as held.
pub proof fn failures_say_what_failed(
    what: &str,
    cause: &str,
    d: Error,
    e: Error,
    said_d: String,
    said_e: String,
    any: Error,
    contended: bool,
)
    requires
        call_ensures(backend, (what, cause), d),
        call_ensures(invalid, (what,), e),
        call_ensures(Error::message, (&d,), said_d),
        call_ensures(Error::message, (&e,), said_e),
        call_ensures(Error::is_held, (&any,), contended),
    ensures
        said_d@ == "backend error: "@ + (what@ + cause@),
        said_e@ == "invalid config: "@ + what@,
        d@ is Backend && e@ is InvalidConfig,
        contended <==> any is Held,
{
}

/// Options say what they were told.
pub proof fn options_say_what_they_were_told(
    plain: LockOptions,
    o: LockOptions,
    ttl: Span,
    leased: LockOptions,
    watchdog: bool,
    watched: LockOptions,
    policy: SafetyPolicy,
    guarded: LockOptions,
)
    requires
        call_ensures(LockOptions::new, (), plain),
        call_ensures(LockOptions::with_ttl, (o, ttl), leased),
        call_ensures(LockOptions::with_watchdog, (o, watchdog), watched),
        call_ensures(LockOptions::with_safety_policy, (o, policy), guarded),
    ensures
        plain.ttl is None && plain.watchdog is None && plain.safety_policy
            == SafetyPolicy::Balanced,
        leased.ttl == Some(ttl) && leased.watchdog == o.watchdog && leased.safety_policy
            == o.safety_policy,
        watched.watchdog == Some(watchdog) && watched.ttl == o.ttl && watched.safety_policy
            == o.safety_policy,
        guarded.safety_policy == policy && guarded.ttl == o.ttl && guarded.watchdog == o.watchdog,
{
}

/// Options that were told no lease ask for the default one; a lease below ten
/// milliseconds is refused.
pub proof fn options_fall_back_to_the_default(
    o: LockOptions,
    fallback: Span,
    lease: Span,
    checked: Result<Span, Error>,
    what: &str,
    ttl: Span,
    floor: Result<(), Error>,
)
    requires
        call_ensures(LockOptions::lease_or, (&o, fallback), lease),
        call_ensures(LockOptions::checked_lease, (&o, fallback), checked),
        call_ensures(check_floor, (what, &ttl), floor),
    ensures
        o.ttl is Some ==> lease == o.ttl->0,
        o.ttl is None ==> lease == fallback,
        checked is Ok <==> lease@ >= 10_000_000,
        checked matches Ok(l) ==> l == lease,
        floor is Ok <==> ttl@ >= 10_000_000,
        floor matches Err(e) ==> e@ is InvalidConfig,
        checked matches Err(e) ==> e@ is InvalidConfig,
{
}

/// Settings start with a lease of thirty seconds, no renewal and five seconds
/// for an answer; each setter changes its own; settings are sound if they have
/// an endpoint and a lease of ten milliseconds or more.
pub proof fn settings_are_as_they_were_set(
    url: &str,
    new: RedisConfig,
    c: RedisConfig,
    t: Span,
    w: bool,
    ttl: RedisConfig,
    timeout: RedisConfig,
    watchdog: RedisConfig,
    r: Result<(), Error>,
)
    requires
        call_ensures(RedisConfig::new, (url,), new),
        call_ensures(RedisConfig::with_default_ttl, (c, t), ttl),
        call_ensures(RedisConfig::with_response_timeout, (c, t), timeout),
        call_ensures(RedisConfig::with_watchdog, (c, w), watchdog),
        call_ensures(RedisConfig::validate, (&c,), r),
    ensures
        new@.url == url@ && new@.default_ttl == 30_000_000_000 && !new@.watchdog
            && new@.response_timeout == 5_000_000_000,
        ttl@.default_ttl == t@ && ttl@.url == c@.url && ttl@.watchdog == c@.watchdog
            && ttl@.response_timeout == c@.response_timeout,
        timeout@.response_timeout == t@ && timeout@.url == c@.url && timeout@.watchdog
            == c@.watchdog && timeout@.default_ttl == c@.default_ttl,
        watchdog@.watchdog == w && watchdog@.url == c@.url && watchdog@.default_ttl
            == c@.default_ttl && watchdog@.response_timeout == c@.response_timeout,
        r is Ok <==> !blank(c@.url) && c@.default_ttl >= 10_000_000,
        r matches Err(e) ==> e@ is InvalidConfig && (blank(c@.url) ==> e@ == ErrorV::InvalidConfig(
            "redis url is empty"@,
        )),
{
}

/// Settings are read as they are.
pub proof fn settings_are_read_as_they_are(
    c: RedisConfig,
    url: &str,
    ttl: Span,
    watchdog: bool,
    timeout: Span,
)
    requires
        call_ensures(RedisConfig::url, (&c,), url),
        call_ensures(RedisConfig::default_ttl, (&c,), ttl),
        call_ensures(RedisConfig::watchdog, (&c,), watchdog),
        call_ensures(RedisConfig::response_timeout, (&c,), timeout),
    ensures
        url@ == c@.url && ttl@ == c@.default_ttl && watchdog == c@.watchdog && timeout@
            == c@.response_timeout,
{
}

/// A watchdog renews three times per lease, while the lock is alive and not
/// released.
pub proof fn watchdogs_renew_three_times_per_lease(ttl: Span, r: Span, alive: bool, released: bool, s: bool)
    requires
        call_ensures(Watchdog::period, (&ttl,), r),
        call_ensures(Watchdog::should_renew, (alive, released), s),
    ensures
        3 * r@ <= ttl@ < 3 * r@ + 3,
        s <==> alive && !released,
{
}

/// A watchdog gives up at once when another owns the lock, at the second failure
/// in a row, and not before; once it gave up it stays so.
pub proof fn watchdogs_give_up_at_the_second_failure(
    new: Watchdog,
    d: &mut Watchdog,
    outcome: Renewal,
    r: WatchdogStep,
)
    requires
        call_ensures(Watchdog::new, (), new),
        call_ensures(Watchdog::after_renewal, (d, outcome), r),
    ensures
        new@.failures == 0 && !new@.lost,
        r == WatchdogStep::Lost <==> old(d)@.lost || outcome == Renewal::NotOwner || (outcome
            == Renewal::Failed && old(d)@.failures >= 1),
        r == WatchdogStep::Lost || r == WatchdogStep::Continue,
        final(d)@.lost <==> r == WatchdogStep::Lost,
        !old(d)@.lost && outcome == Renewal::Renewed ==> final(d)@.failures == 0,
        !old(d)@.lost && outcome == Renewal::Failed ==> final(d)@.failures == old(d)@.failures + 1,
{
}

/// Jitter only ever lengthens a nap, by less than a full one.
pub proof fn jitter_lengthens_a_nap(
    w: Waiting,
    a: Result<u64, Error>,
    now: u128,
    chance: u64,
    plain: PollStep<u64>,
    jittered: PollStep<u64>,
)
    requires
        call_ensures(Waiting::after::<u64>, (&w, a, now), plain),
        call_ensures(Waiting::after_jittered::<u64>, (&w, a, now, chance), jittered),
    ensures
        plain is Done <==> jittered is Done,
        plain matches PollStep::Done(Ok(x)) ==> jittered == PollStep::Done(Ok::<u64, Error>(x)),
        plain matches PollStep::Done(Err(e)) ==> (jittered matches PollStep::Done(Err(f)) && f@
            == e@),
        plain matches PollStep::Sleep(s) ==> (jittered matches PollStep::Sleep(t) && s@ <= t@ < s@
            + 20_000_000 && t@ == s@ + chance % 20_000_000),
{
}

/// A wait ends after its time, by whichever start.
pub proof fn waits_have_their_time(
    key: &str,
    wait: Span,
    now: u128,
    a: Waiting,
    b: Waiting,
)
    requires
        now + wait@ <= u128::MAX,
        call_ensures(Waiting::start, (key, &wait, now), a),
        call_ensures(Waiting::start_clipped, (key, &wait, now), b),
    ensures
        a.key@ == key@ && b.key@ == key@,
        a.deadline is Some && a.deadline->0 == now + wait@,
        b.deadline == a.deadline,
        !a.clipped && b.clipped,
{
}

/// Tiers have their rank and their name.
pub proof fn tiers_have_rank_and_name(t: Tier, n: u8, name: &'static str)
    requires
        call_ensures(Tier::as_u8, (t,), n),
        call_ensures(Tier::as_str, (t,), name),
    ensures
        n == 0 <==> t == Tier::Normal,
        n == 1 <==> t == Tier::Elevated,
        n == 2 <==> t == Tier::Critical,
        n == 3 <==> t == Tier::Siege,
        t == Tier::Normal ==> name@ == "NORMAL"@,
        t == Tier::Elevated ==> name@ == "ELEVATED"@,
        t == Tier::Critical ==> name@ == "CRITICAL"@,
        t == Tier::Siege ==> name@ == "SIEGE"@,
{
}

/// What is put into a table is found there, until it is replaced or taken out.
pub proof fn tables_keep_what_they_are_given(
    t: &mut Table<u64>,
    key: String,
    v: u64,
    displaced: Option<u64>,
    u: &mut Table<u64>,
    name: &str,
    taken: Option<u64>,
    k: Seq<char>,
)
    requires
        call_ensures(Table::<u64>::insert, (t, key, v), displaced),
        call_ensures(Table::<u64>::remove, (u, name), taken),
    ensures
        final(t)@.dom().contains(key@) && final(t)@[key@] == v,
        displaced is Some <==> old(t)@.dom().contains(key@),
        displaced matches Some(w) ==> w == old(t)@[key@],
        k != key@ ==> (final(t)@.dom().contains(k) <==> old(t)@.dom().contains(k)) && (
        old(t)@.dom().contains(k) ==> final(t)@[k] == old(t)@[k]),
        !final(u)@.dom().contains(name@),
        taken is Some <==> old(u)@.dom().contains(name@),
        taken matches Some(w) ==> w == old(u)@[name@],
        k != name@ ==> (final(u)@.dom().contains(k) <==> old(u)@.dom().contains(k)) && (
        old(u)@.dom().contains(k) ==> final(u)@[k] == old(u)@[k]),
{
}

/// What an operation on `key` becomes: nothing where it is on another key or
/// extends a lease, and otherwise one event under its fence, at its whole
/// milliseconds.
pub open spec fn becomes(key: Seq<char>, e: HistoryEntry) -> Seq<Completed> {
    if e.key@ != key || e.op == OpKind::Extend {
        seq![]
    } else {
        seq![
            Completed {
                end_us: e.end_us,
                event: Event {
                    t_ms: e.end_us / 1_000,
                    worker: e.fence as usize,
                    kind: if e.op == OpKind::TryAcquire && e.ok {
                        EventKind::Grant
                    } else if e.op == OpKind::TryAcquire {
                        EventKind::Deny
                    } else if e.ok {
                        EventKind::ReleaseOk
                    } else {
                        EventKind::ReleaseLost
                    },
                    fence: e.fence,
                },
            },
        ]
    }
}

/// Histories are made operation by operation: what is recorded later adds its
/// event behind those of what was recorded earlier, and operations on other keys
/// and extensions add nothing.
pub proof fn histories_are_made_operation_by_operation(
    key: Seq<char>,
    entries: Seq<HistoryEntry>,
    e: HistoryEntry,
)
    ensures
        events_of(key, seq![]) == Seq::<Completed>::empty(),
        events_of(key, entries.push(e)) =~= events_of(key, entries) + becomes(key, e),
{
    assert(entries.push(e).drop_last() =~= entries);
    assert(entries.push(e).last() == e);
}

/// Operations that completed at one time keep their order.
pub proof fn histories_keep_ties_in_order(events: Seq<Completed>, t: u64)
    ensures
        in_time_order(events).filter(|c: Completed| c.end_us == t) == events.filter(
            |c: Completed| c.end_us == t,
        ),
    decreases events.len(),
{
    let p = |c: Completed| c.end_us == t;
    if events.len() > 0 {
        let front = events.drop_last();
        histories_keep_ties_in_order(front, t);
        lemma_placed_ties(in_time_order(front), events.last(), t);
        assert(events =~= front.push(events.last()));
        lemma_filter_push(front, events.last(), t);
    } else {
        assert(events =~= Seq::<Completed>::empty());
        assert(in_time_order(events) =~= Seq::<Completed>::empty());
    }
}

proof fn lemma_filter_push(s: Seq<Completed>, e: Completed, t: u64)
    ensures
        s.push(e).filter(|c: Completed| c.end_us == t) == s.filter(|c: Completed| c.end_us == t) + (
        if e.end_us == t {
            seq![e]
        } else {
            seq![]
        }),
{
    reveal(Seq::filter);
    assert(s.push(e).drop_last() =~= s);
}

proof fn lemma_placed_ties(s: Seq<Completed>, e: Completed, t: u64)
    ensures
        placed(s, e).filter(|c: Completed| c.end_us == t) == s.filter(|c: Completed| c.end_us == t)
            + (if e.end_us == t {
            seq![e]
        } else {
            seq![]
        }),
    decreases s.len(),
{
    if s.len() == 0 || s.last().end_us <= e.end_us {
        lemma_filter_push(s, e, t);
    } else {
        let front = s.drop_last();
        let last = s.last();
        lemma_placed_ties(front, e, t);
        lemma_filter_push(placed(front, e), last, t);
        assert(s =~= front.push(last));
        lemma_filter_push(front, last, t);
    }
}

/// A history is judged as it happened: the check is handed the events of the
/// key in the order of completion, and its verdict is passed on.
pub proof fn histories_are_judged_as_they_happened<X, F: Fn(&Vec<Event>, u64) -> Result<(), X>>(
    key: &str,
    entries: Vec<HistoryEntry>,
    ttl_ms: u64,
    check: F,
    r: Result<(), X>,
)
    requires
        forall|events: Vec<Event>| call_requires(check, (&events, ttl_ms)),
        call_ensures(check_client_history::<X, F>, (key, &entries, ttl_ms, check), r),
    ensures
        exists|events: Vec<Event>| #[trigger]
            call_ensures(check, (&events, ttl_ms), r) && events@.len() == events_of(
                key@,
                entries@,
            ).len() && forall|i: int|
                0 <= i < events@.len() ==> #[trigger] events@[i] == in_time_order(
                    events_of(key@, entries@),
                )[i].event,
{
    let events = choose|events: Vec<Event>|
        events@ == history_of(key@, entries@) && #[trigger] call_ensures(
            check,
            (&events, ttl_ms),
            r,
        );
    crate::realtime::histories_run_forward(events_of(key@, entries@));
    in_time_order(events_of(key@, entries@)).to_multiset_ensures();
    events_of(key@, entries@).to_multiset_ensures();
    assert(call_ensures(check, (&events, ttl_ms), r));
}

} // verus!
