//! Locks under predicates, locks on many keys, and what is kept beside a lock.

use vstd::prelude::*;

use crate::command::{texts, ArgV, Invocation, ProgramV, Script};
use crate::error::{Error, ErrorV};
use crate::multi::{first_fault, sorted_keys, unreleased, MultiAcquire, MultiLockHandle,
    MultiRelease, MultiStep};
use crate::options::LockOptions;
use crate::owner::OwnerId;
use crate::poll::PollStep;
use crate::promises::locks::{fits, given_or, lease_ms, parts};
use crate::scan::{matched, Scan, ScanStep};
use crate::semantic::{conjunction, decimal_number, digits, escaped_texts_read_back, is_digit, lua,
    numbers_are_plain, predicates, quoted, unsigned_number, Number, PendingSemantic, Predicate,
    PredicateV, SemanticGuard};
use crate::single::{fence_key, fence_key_for, PendingLock, RedisLockHandle, RedisLockManager};
use crate::slots::{first_from, is_side_named, own_tag, own_tag_of, side_named};
use crate::span::Span;
use crate::text::before;

verus! {

/// One or more of the ten digits.
pub open spec fn all_digits(s: Seq<char>) -> bool {
    s.len() > 0 && forall|i: int| 0 <= i < s.len() ==> '0' <= #[trigger] s[i] <= '9'
}

/// Digits, or digits around a point.
pub open spec fn plain_decimal(s: Seq<char>) -> bool {
    all_digits(s) || exists|w: Seq<char>, f: Seq<char>|
        all_digits(w) && all_digits(f) && s == #[trigger] (w + seq!['.'] + f)
}

/// A decimal with or without a minus sign.
pub open spec fn signed_decimal(s: Seq<char>) -> bool {
    plain_decimal(s) || exists|m: Seq<char>| plain_decimal(m) && s == #[trigger] (seq!['-'] + m)
}

proof fn lemma_digits(s: Seq<char>)
    ensures
        digits(s) <==> all_digits(s),
{
    if all_digits(s) {
        assert forall|i: int| 0 <= i < s.len() implies is_digit(#[trigger] s[i]) by {}
    }
    if digits(s) {
        assert forall|i: int| 0 <= i < s.len() implies '0' <= #[trigger] s[i] <= '9' by {
            assert(is_digit(s[i]));
        }
    }
}

proof fn lemma_plain(s: Seq<char>)
    ensures
        unsigned_number(s) <==> plain_decimal(s),
{
    lemma_digits(s);
    if unsigned_number(s) && !digits(s) {
        let i = choose|i: int|
            0 <= i < s.len() && #[trigger] s[i] == '.' && digits(s.take(i)) && digits(
                s.skip(i + 1),
            );
        lemma_digits(s.take(i));
        lemma_digits(s.skip(i + 1));
        assert(s =~= s.take(i) + seq!['.'] + s.skip(i + 1));
    }
    if plain_decimal(s) && !all_digits(s) {
        let (w, f) = choose|w: Seq<char>, f: Seq<char>|
            all_digits(w) && all_digits(f) && s == #[trigger] (w + seq!['.'] + f);
        let i = w.len() as int;
        assert(s.take(i) =~= w);
        assert(s.skip(i + 1) =~= f);
        assert(s[i] == '.');
        lemma_digits(w);
        lemma_digits(f);
    }
}

pub proof fn lemma_signed(s: Seq<char>)
    ensures
        decimal_number(s) <==> signed_decimal(s),
{
    lemma_plain(s);
    if s.len() > 0 {
        lemma_plain(s.skip(1));
        if s[0] == '-' {
            assert(s =~= seq!['-'] + s.skip(1));
        }
    }
    if exists|m: Seq<char>| plain_decimal(m) && s == #[trigger] (seq!['-'] + m) {
        let m = choose|m: Seq<char>| plain_decimal(m) && s == #[trigger] (seq!['-'] + m);
        assert(s.skip(1) =~= m);
        assert(s[0] == '-');
    }
}

/// Every decimal is a number, whatever its sign, and so are the infinities and
/// the number that is none; nothing else is.
pub proof fn numbers_are_signed_decimals(s: &str, r: Option<Number>)
    requires
        call_ensures(Number::parse, (s,), r),
    ensures
        r is Some <==> signed_decimal(s@) || s@ == "inf"@ || s@ == "-inf"@ || s@ == "NaN"@,
        r matches Some(n) ==> n@ == s@,
{
    lemma_signed(s@);
}

/// A script writes a decimal as that very decimal, sign included, and each of
/// the others by the name that the store knows it by.
pub proof fn scripts_write_numbers_as_they_are(n: Number, said: &str, r: String)
    requires
        call_ensures(Number::text, (&n,), said),
        call_ensures(Number::to_lua, (&n,), r),
    ensures
        said@ == n@,
        signed_decimal(n@) ==> r@ == n@,
        n@ == "inf"@ ==> r@ == "math.huge"@,
        n@ == "-inf"@ ==> r@ == "-math.huge"@,
        n@ == "NaN"@ ==> r@ == "(0/0)"@,
{
    reveal_strlit("inf");
    reveal_strlit("-inf");
    reveal_strlit("NaN");
    lemma_signed(n@);
    assert("inf"@.len() == 3 && "-inf"@.len() == 4 && "NaN"@[0] != "inf"@[0]);
    if signed_decimal(n@) {
        if n@ == "inf"@ {
            numbers_are_plain(n@, 0);
        }
        if n@ == "-inf"@ {
            numbers_are_plain(n@, 1);
        }
        if n@ == "NaN"@ {
            numbers_are_plain(n@, 0);
        }
    }
}

/// Behind an opening quote `x` says `s` and ends the string, whatever follows.
pub open spec fn says(x: Seq<char>, s: Seq<char>) -> bool {
    forall|rest: Seq<char>| #[trigger] quoted(x + "'"@ + rest) == Some((s, rest))
}

/// Each predicate is the condition that it stands for, on its own field and
/// value: that the field equals the value, that it is a number above the number,
/// that it does not exist.
pub proof fn predicates_are_the_conditions_they_stand_for(p: Predicate, r: String)
    requires
        call_ensures(Predicate::to_lua, (&p,), r),
    ensures
        p matches Predicate::Equals { field, value } ==> exists|x: Seq<char>, y: Seq<char>|
            says(x, field@) && says(y, value@) && r@ == #[trigger] (
            "(redis.call('HGET', KEYS[3], '"@ + x + "') == '"@ + y + "')"@),
        p matches Predicate::FieldGt { field, value } ==> exists|x: Seq<char>, n: Seq<char>|
            says(x, field@) && (signed_decimal(value@) ==> n == value@) && r@ == #[trigger] (
            "(tonumber(redis.call('HGET', KEYS[3], '"@ + x
                + "')) ~= nil and tonumber(redis.call('HGET', KEYS[3], '"@ + x + "')) > "@ + n
                + ")"@),
        p matches Predicate::Absent { field } ==> exists|x: Seq<char>|
            says(x, field@) && r@ == #[trigger] ("(redis.call('HEXISTS', KEYS[3], '"@ + x
                + "') == 0)"@),
{
    match p {
        Predicate::Equals { field, value } => {
            lemma_says(field@);
            lemma_says(value@);
            let x = crate::semantic::escaped(field@);
            let y = crate::semantic::escaped(value@);
            assert(r@ == "(redis.call('HGET', KEYS[3], '"@ + x + "') == '"@ + y + "')"@);
        },
        Predicate::FieldGt { field, value } => {
            lemma_says(field@);
            let x = crate::semantic::escaped(field@);
            let n = crate::semantic::lua_number(value@);
            lemma_number_stays(value@);
            assert(r@ == "(tonumber(redis.call('HGET', KEYS[3], '"@ + x
                + "')) ~= nil and tonumber(redis.call('HGET', KEYS[3], '"@ + x + "')) > "@ + n
                + ")"@);
        },
        Predicate::Absent { field } => {
            lemma_says(field@);
            let x = crate::semantic::escaped(field@);
            assert(r@ == "(redis.call('HEXISTS', KEYS[3], '"@ + x + "') == 0)"@);
        },
    }
}

proof fn lemma_number_stays(s: Seq<char>)
    ensures
        signed_decimal(s) ==> crate::semantic::lua_number(s) == s,
{
    reveal_strlit("inf");
    reveal_strlit("-inf");
    reveal_strlit("NaN");
    lemma_signed(s);
    if signed_decimal(s) {
        if s == "inf"@ {
            numbers_are_plain(s, 0);
        }
        if s == "-inf"@ {
            numbers_are_plain(s, 1);
        }
        if s == "NaN"@ {
            numbers_are_plain(s, 0);
        }
    }
}

proof fn lemma_says(s: Seq<char>)
    ensures
        says(crate::semantic::escaped(s), s),
{
    assert forall|rest: Seq<char>| #[trigger]
        quoted(crate::semantic::escaped(s) + "'"@ + rest) == Some((s, rest)) by {
        escaped_texts_read_back(s, rest);
    }
}

/// A guard collects its predicates in order and changes nothing else.
pub proof fn guards_collect_their_predicates(
    g: SemanticGuard,
    f: &str,
    v: &str,
    n: Number,
    equals: SemanticGuard,
    above: SemanticGuard,
    absent: SemanticGuard,
    i: int,
)
    requires
        0 <= i < g.preds@.len(),
        call_ensures(SemanticGuard::field_equals, (g, f, v), equals),
        call_ensures(SemanticGuard::field_gt, (g, f, n), above),
        call_ensures(SemanticGuard::field_absent, (g, f), absent),
    ensures
        equals.preds@.len() == g.preds@.len() + 1 && above.preds@.len() == g.preds@.len() + 1
            && absent.preds@.len() == g.preds@.len() + 1,
        equals.preds@[i]@ == g.preds@[i]@ && above.preds@[i]@ == g.preds@[i]@ && absent.preds@[i]@
            == g.preds@[i]@,
        equals.preds@.last()@ == (PredicateV::Equals { field: f@, value: v@ }),
        above.preds@.last()@ == (PredicateV::FieldGt { field: f@, value: n@ }),
        absent.preds@.last()@ == (PredicateV::Absent { field: f@ }),
        equals.key == g.key && above.key == g.key && absent.key == g.key,
        equals.ttl == g.ttl && above.ttl == g.ttl && absent.ttl == g.ttl,
{
    let ps = predicates(g.preds@);
    assert(ps.len() == g.preds@.len());
    assert(ps[i] == g.preds@[i]@);
    let e = predicates(equals.preds@);
    let a = predicates(above.preds@);
    let b = predicates(absent.preds@);
    assert(e.len() == equals.preds@.len() && a.len() == above.preds@.len() && b.len()
        == absent.preds@.len());
    assert(e[i] == equals.preds@[i]@ && a[i] == above.preds@[i]@ && b[i] == absent.preds@[i]@);
    assert(e.last() == equals.preds@.last()@ && a.last() == above.preds@.last()@ && b.last()
        == absent.preds@.last()@);
}

/// A guard starts on its key with thirty seconds and no predicate, and takes the
/// lease and the renewal that it is told.
pub proof fn guards_take_what_they_are_told(
    m: RedisLockManager,
    key: &str,
    fresh: SemanticGuard,
    g: SemanticGuard,
    d: Span,
    leased: SemanticGuard,
    watched: SemanticGuard,
    owner: OwnerId,
    r: Result<PendingSemantic, Error>,
)
    requires
        call_ensures(RedisLockManager::acquire_where, (&m, key), fresh),
        call_ensures(SemanticGuard::ttl, (g, d), leased),
        call_ensures(SemanticGuard::with_watchdog, (g,), watched),
        call_ensures(SemanticGuard::acquire_as, (g, owner), r),
    ensures
        fresh.key@ == key@ && fresh.preds@.len() == 0 && fresh.ttl@ == 30_000_000_000
            && !fresh.watchdog,
        leased.ttl == d && leased.key == g.key && leased.preds == g.preds && leased.watchdog
            == g.watchdog,
        watched.watchdog && watched.key == g.key && watched.preds == g.preds && watched.ttl == g.ttl,
        r is Ok <==> g.preds@.len() > 0,
        r matches Ok(p) ==> p.guard == g && p.owner == owner,
        r matches Err(e) ==> e@ is InvalidConfig,
{
}

/// Conditions are joined by `and`, in order.
pub proof fn conditions_are_joined(ps: Seq<PredicateV>, p: PredicateV)
    ensures
        conjunction(seq![p]) == lua(p),
        ps.len() > 0 ==> conjunction(ps.push(p)) == conjunction(ps) + " and "@ + lua(p),
{
    assert(ps.push(p).drop_last() =~= ps);
    assert(ps.push(p).last() == p);
}

/// A semantic grant is one script on the key, its fence counter and its data,
/// which takes the key only where there is data, nobody holds it and every
/// condition is met; only a status of 1 is a grant.
pub proof fn semantic_grants_test_before_they_take(
    p: PendingSemantic,
    i: Invocation,
    m: RedisLockManager,
    reply: Result<(i64, i64), String>,
    r: Result<RedisLockHandle, Error>,
)
    requires
        p.guard.preds@.len() > 0,
        fits(p.guard.ttl),
        call_ensures(PendingSemantic::invocation, (&p,), i),
        call_ensures(PendingSemantic::complete, (p, &m, reply), r),
    ensures
        i@.program == ProgramV::Composed(
            "\nif redis.call('EXISTS', KEYS[3]) == 0 then return {0, 0} end\nif redis.call('EXISTS', KEYS[1]) == 1 then return {0, 0} end\nif not ("@
                + conjunction(predicates(p.guard.preds@))
                + ") then return {0, 0} end\nredis.call('SET', KEYS[1], ARGV[1], 'PX', ARGV[2])\nlocal fence = redis.call('INCR', KEYS[2])\nredis.call('PEXPIRE', KEYS[2], ARGV[3])\nreturn {1, fence}\n"@,
        ),
        i@.keys =~= seq![p.guard.key@, fence_key(p.guard.key@), p.guard.key@ + ":data"@],
        i@.args.len() == 3 && i@.args[0] == ArgV::Text(p.owner.token_text()) && i@.args[1]
            == ArgV::Int(lease_ms(p.guard.ttl)),
        i@.args[2] matches ArgV::Int(kept) && kept == (if lease_ms(p.guard.ttl) * 10 <= i64::MAX {
            lease_ms(p.guard.ttl) * 10
        } else {
            lease_ms(p.guard.ttl) as int
        }),
        match reply {
            Ok((status, fence)) => {
                &&& r is Ok <==> status == 1
                &&& r matches Ok(h) ==> h.key@ == p.guard.key@ && h.owner == p.owner && h.ttl
                    == p.guard.ttl && !h.released && !h.poisoned && (fence >= 0 ==> h.fence@
                    == fence)
                &&& r matches Err(e) ==> e@ == (ErrorV::Held { key: p.guard.key@ })
            },
            Err(_) => r matches Err(e) && e@ is Backend,
        },
{
}

/// Keys are sorted, none is lost and none is added.
pub proof fn keys_are_sorted_in_full(keys: Vec<String>, r: Vec<String>)
    requires
        call_ensures(sorted_keys, (&keys,), r),
    ensures
        texts(r@).to_multiset() == texts(keys@).to_multiset(),
        forall|i: int, j: int|
            0 <= i < j < r@.len() ==> !before((#[trigger] r@[j])@, (#[trigger] r@[i])@),
{
    let ts = texts(r@);
    assert forall|i: int, j: int| 0 <= i < j < r@.len() implies !before(
        (#[trigger] r@[j])@,
        (#[trigger] r@[i])@,
    ) by {
        assert(ts[i] == r@[i]@ && ts[j] == r@[j]@);
    }
}

/// A multi-lock is begun with every key once, for its lease and its time, and is
/// refused for a short lease or a repeated key and nothing else.
pub proof fn multi_locks_take_every_key_once(
    m: RedisLockManager,
    keys: Vec<String>,
    options: LockOptions,
    wait: Span,
    now: u128,
    r: Result<MultiAcquire, Error>,
)
    requires
        now + wait@ <= u128::MAX,
        call_ensures(RedisLockManager::try_lock_all, (&m, &keys, &options, &wait, now), r),
    ensures
        r is Ok <==> given_or(options, m.default_ttl)@ >= 10_000_000 && forall|i: int, j: int|
            0 <= i < j < keys@.len() ==> (#[trigger] keys@[i])@ != (#[trigger] keys@[j])@,
        r matches Ok(a) ==> texts(a.sorted@).to_multiset() == texts(keys@).to_multiset()
            && a.taken@.len() == 0 && a.options == options && a.waiting.deadline is Some
            && a.waiting.deadline->0 == now + wait@ && !a.waiting.clipped && forall|
            i: int,
            j: int,
        |
            0 <= i < j < a.sorted@.len() ==> before((#[trigger] a.sorted@[i])@, (
            #[trigger] a.sorted@[j])@),
        r matches Err(e) ==> e@ is InvalidConfig,
{
    let ts = texts(keys@);
    assert(ts.len() == keys@.len());
    assert forall|i: int| 0 <= i < keys@.len() implies ts[i] == (#[trigger] keys@[i])@ by {}
    if ts.no_duplicates() {
        assert forall|i: int, j: int| 0 <= i < j < keys@.len() implies (#[trigger] keys@[i])@ != (
        #[trigger] keys@[j])@ by {
            assert(ts[i] != ts[j]);
        }
    }
    if forall|i: int, j: int|
        0 <= i < j < keys@.len() ==> (#[trigger] keys@[i])@ != (#[trigger] keys@[j])@ {
        assert forall|i: int, j: int| 0 <= i < ts.len() && 0 <= j < ts.len() && i != j implies ts[i]
            != ts[j] by {
            if i < j {
                assert(keys@[i]@ != keys@[j]@);
            } else {
                assert(keys@[j]@ != keys@[i]@);
            }
        }
    }
    if let Ok(a) = r {
        let ss = texts(a.sorted@);
        assert forall|i: int, j: int| 0 <= i < j < a.sorted@.len() implies before(
            (#[trigger] a.sorted@[i])@,
            (#[trigger] a.sorted@[j])@,
        ) by {
            assert(ss[i] == a.sorted@[i]@ && ss[j] == a.sorted@[j]@);
        }
    }
}

/// A multi-lock asks for its keys in order; where one is held or the store
/// fails, everything taken is given back, the last first, and it starts over;
/// other errors end it.
pub proof fn multi_locks_hold_all_or_nothing(
    a: &mut MultiAcquire,
    m: RedisLockManager,
    next: Result<PendingLock, Error>,
    attempt: Result<RedisLockHandle, Error>,
    r: MultiStep,
)
    requires
        old(a).wf(),
        old(a).taken@.len() < old(a).sorted@.len(),
        fits(given_or(old(a).options, m.default_ttl)),
        attempt matches Ok(h) ==> h.key@ == old(a).sorted@[old(a).taken@.len() as int]@
            && !h.released,
        call_ensures(MultiAcquire::next_attempt, (&*a, &m), next),
        call_ensures(MultiAcquire::took, (a, attempt), r),
    ensures
        next is Ok <==> given_or(old(a).options, m.default_ttl)@ >= 10_000_000,
        next matches Ok(p) ==> p.key@ == old(a).sorted@[old(a).taken@.len() as int]@ && p.ttl
            == given_or(old(a).options, m.default_ttl),
        attempt matches Ok(h) ==> r is Taken && final(a).taken@ == old(a).taken@.push(h),
        (attempt matches Err(e) && (e@ is Held || e@ is Backend)) <==> r is Retreat,
        (attempt matches Err(e) && !(e@ is Held || e@ is Backend)) <==> r is Failed,
        r matches MultiStep::Retreat(calls, why) ==> why == attempt->Err_0 && final(a).taken@.len()
            == 0 && calls@.len() == old(a).taken@.len() && forall|j: int|
            0 <= j < calls@.len() ==> {
                let h = old(a).taken@[old(a).taken@.len() - 1 - j];
                parts(#[trigger] calls@[j], h.key@, h.owner.token_text())
            },
        r matches MultiStep::Failed(why) ==> why == attempt->Err_0 && final(a).taken
            == old(a).taken,
        final(a).sorted == old(a).sorted && final(a).options == old(a).options && final(a).waiting
            == old(a).waiting,
{
    if let MultiStep::Retreat(calls, why) = r {
        let taken = old(a).taken@;
        assert forall|j: int| 0 <= j < calls@.len() implies ({
            let h = taken[taken.len() - 1 - j];
            parts(#[trigger] calls@[j], h.key@, h.owner.token_text())
        }) by {
            assert(taken[taken.len() - 1 - j].says_farewell(calls@[j]));
        }
    }
}

/// A multi-lock is complete when every key is taken; what it then holds is what
/// it took. Between rounds it waits until its time is up.
pub proof fn multi_locks_end_in_time(
    a: MultiAcquire,
    done: bool,
    now: u128,
    step: PollStep<()>,
    h: MultiLockHandle,
)
    requires
        a.wf(),
        call_ensures(MultiAcquire::complete, (&a,), done),
        call_ensures(MultiAcquire::after_retreat, (&a, now), step),
        done ==> call_ensures(MultiAcquire::finish, (a,), h),
        !a.waiting.clipped,
    ensures
        done <==> a.taken@.len() == a.sorted@.len(),
        done ==> h.handles@ == a.taken@,
        a.waiting.deadline is Some && now >= a.waiting.deadline->0 <==> step is Done,
        step matches PollStep::Done(d) ==> d is Err && d->Err_0@ is Timeout,
        step matches PollStep::Sleep(s) ==> s@ == 20_000_000,
{
}

proof fn lemma_unreleased(handles: Seq<RedisLockHandle>)
    ensures
        forall|i: int| #[trigger]
            unreleased(handles).contains(i) <==> 0 <= i < handles.len() && !handles[i].released,
        forall|j: int, k: int|
            0 <= j < k < unreleased(handles).len() ==> #[trigger] unreleased(handles)[j]
                > #[trigger] unreleased(handles)[k],
    decreases handles.len(),
{
    if handles.len() > 0 {
        let n = handles.len() - 1;
        let front = handles.drop_last();
        lemma_unreleased(front);
        let u = unreleased(front);
        let all = unreleased(handles);
        assert forall|i: int| #[trigger] all.contains(i) <==> 0 <= i < handles.len()
            && !handles[i].released by {
            if handles.last().released {
                assert(all == u);
                if 0 <= i < n {
                    assert(front[i] == handles[i]);
                }
                if u.contains(i) {
                    assert(front[i] == handles[i]);
                }
            } else {
                assert(all == seq![n] + u);
                if all.contains(i) {
                    let j = choose|j: int| 0 <= j < all.len() && all[j] == i;
                    if j > 0 {
                        assert(u[j - 1] == i);
                        assert(u.contains(i));
                        assert(front[i] == handles[i]);
                    }
                }
                if i == n {
                    assert(all[0] == n);
                }
                if 0 <= i < n && !handles[i].released {
                    assert(front[i] == handles[i]);
                    assert(u.contains(i));
                    let j = choose|j: int| 0 <= j < u.len() && u[j] == i;
                    assert(all[j + 1] == i);
                }
            }
        }
        assert forall|j: int, k: int| 0 <= j < k < all.len() implies #[trigger] all[j]
            > #[trigger] all[k] by {
            if !handles.last().released {
                assert(all[k] == u[k - 1]);
                assert(u.contains(u[k - 1]));
                if j > 0 {
                    assert(all[j] == u[j - 1]);
                }
            }
        }
    }
}

/// A multi-lock releases every key that it still holds, the last first, and then
/// holds none.
pub proof fn multi_locks_release_all_they_hold(h: &mut MultiLockHandle, r: Vec<MultiRelease>, i: int)
    requires
        0 <= i < old(h).handles@.len(),
        call_ensures(MultiLockHandle::release_all, (h,), r),
    ensures
        !old(h).handles@[i].released <==> exists|j: int|
            0 <= j < r@.len() && (#[trigger] r@[j]).index == i,
        forall|j: int, k: int|
            0 <= j < k < r@.len() ==> (#[trigger] r@[j]).index > (#[trigger] r@[k]).index,
        forall|j: int|
            0 <= j < r@.len() && (#[trigger] r@[j]).index == i ==> parts(
                r@[j].calls,
                old(h).handles@[i].key@,
                old(h).handles@[i].owner.token_text(),
            ),
        final(h).handles@.len() == old(h).handles@.len(),
        final(h).handles@[i].released && final(h).handles@[i].key == old(h).handles@[i].key
            && final(h).handles@[i].fence == old(h).handles@[i].fence,
{
    lemma_unreleased(old(h).handles@);
    let u = unreleased(old(h).handles@);
    let idx = r@.map_values(|m: MultiRelease| m.index as int);
    assert(idx == u);
    assert(idx.len() == r@.len());
    assert forall|j: int| 0 <= j < r@.len() implies (#[trigger] r@[j]).index as int == u[j] by {
        assert(idx[j] == r@[j].index as int);
    }
    if !old(h).handles@[i].released {
        assert(u.contains(i));
        let j = choose|j: int| 0 <= j < u.len() && u[j] == i;
        assert(r@[j].index as int == i);
    }
    if exists|j: int| 0 <= j < r@.len() && (#[trigger] r@[j]).index == i {
        let j = choose|j: int| 0 <= j < r@.len() && (#[trigger] r@[j]).index == i;
        assert(u[j] == i);
        assert(u.contains(i));
    }
    assert forall|j: int, k: int| 0 <= j < k < r@.len() implies (#[trigger] r@[j]).index > (
    #[trigger] r@[k]).index by {
        assert(u[j] > u[k]);
    }
    assert forall|j: int| 0 <= j < r@.len() && (#[trigger] r@[j]).index == i implies parts(
        r@[j].calls,
        old(h).handles@[i].key@,
        old(h).handles@[i].owner.token_text(),
    ) by {
        assert(old(h).handles@[r@[j].index as int].says_farewell(r@[j].calls));
    }
}

proof fn lemma_first_fault(faults: Seq<Option<ErrorV>>)
    ensures
        first_fault(faults) is None <==> forall|i: int|
            0 <= i < faults.len() ==> #[trigger] faults[i] is None,
        first_fault(faults) is Some ==> exists|i: int|
            0 <= i < faults.len() && #[trigger] faults[i] == first_fault(faults) && forall|j: int|
                0 <= j < i ==> #[trigger] faults[j] is None,
    decreases faults.len(),
{
    if faults.len() > 0 {
        let n = faults.len() - 1;
        let front = faults.drop_last();
        lemma_first_fault(front);
        if first_fault(front) is Some {
            let i = choose|i: int|
                0 <= i < front.len() && #[trigger] front[i] == first_fault(front) && forall|j: int|
                    0 <= j < i ==> #[trigger] front[j] is None;
            assert(faults[i] == front[i]);
            assert forall|j: int| 0 <= j < i implies #[trigger] faults[j] is None by {
                assert(front[j] is None);
            }
        } else {
            assert forall|j: int| 0 <= j < n implies #[trigger] faults[j] is None by {
                assert(front[j] is None);
            }
            assert(faults[n] == faults.last());
        }
    }
}

/// The release of a multi-lock succeeds if every key was freed, and otherwise
/// tells of the first that was not.
pub proof fn multi_releases_tell_the_first_fault(
    h: MultiLockHandle,
    sent: Vec<MultiRelease>,
    replies: Vec<Result<i64, String>>,
    r: Result<(), Error>,
)
    requires
        sent@.len() == replies@.len(),
        forall|j: int| 0 <= j < sent@.len() ==> (#[trigger] sent@[j]).index < h.handles@.len(),
        call_ensures(MultiLockHandle::released_all, (&h, &sent, replies), r),
    ensures
        r is Ok <==> forall|j: int|
            0 <= j < replies@.len() ==> #[trigger] replies@[j] == Ok::<i64, String>(1),
        r matches Err(e) ==> exists|j: int|
            0 <= j < replies@.len() && #[trigger] replies@[j] != Ok::<i64, String>(1) && (forall|
                k: int,
            |
                0 <= k < j ==> #[trigger] replies@[k] == Ok::<i64, String>(1)) && (replies@[j]
                is Ok ==> e@ == (ErrorV::Lost {
                key: h.handles@[sent@[j].index as int].key@,
                fence: h.handles@[sent@[j].index as int].fence@,
            })),
{
    let faults = h.faults(sent@, replies@);
    lemma_first_fault(faults);
    assert forall|j: int| 0 <= j < replies@.len() implies (faults[j] is None
        <==> #[trigger] replies@[j] == Ok::<i64, String>(1)) by {}
    if r is Ok {
        assert forall|j: int| 0 <= j < replies@.len() implies #[trigger] replies@[j] == Ok::<
            i64,
            String,
        >(1) by {
            assert(faults[j] is None);
        }
    }
    if forall|j: int| 0 <= j < replies@.len() ==> #[trigger] replies@[j] == Ok::<i64, String>(1) {
        assert forall|j: int| 0 <= j < faults.len() implies #[trigger] faults[j] is None by {
            assert(replies@[j] == Ok::<i64, String>(1));
        }
    }
    if let Err(e) = r {
        let j = choose|i: int|
            0 <= i < faults.len() && #[trigger] faults[i] == first_fault(faults) && forall|j: int|
                0 <= j < i ==> #[trigger] faults[j] is None;
        assert(faults[j] is Some);
        assert(replies@[j] != Ok::<i64, String>(1));
        assert forall|k: int| 0 <= k < j implies #[trigger] replies@[k] == Ok::<i64, String>(1) by {
            assert(faults[k] is None);
        }
    }
}

/// The keys and fences of a multi-lock are those of its locks, in order.
pub proof fn multi_locks_tell_keys_and_fences(
    h: MultiLockHandle,
    keys: Vec<String>,
    fences: Vec<crate::fencing::FencingToken>,
    i: int,
)
    requires
        0 <= i < h.handles@.len(),
        call_ensures(MultiLockHandle::keys, (&h,), keys),
        call_ensures(MultiLockHandle::fences, (&h,), fences),
    ensures
        keys@.len() == h.handles@.len() && fences@.len() == h.handles@.len(),
        keys@[i]@ == h.handles@[i].key@,
        fences@[i] == h.handles@[i].fence,
{
    assert(texts(keys@).len() == keys@.len());
    assert(texts(keys@)[i] == keys@[i]@);
}

/// A listing asks for the keys that match its prefix and no others, batch by
/// batch until the store is back at its start, and of each key for its lease and
/// its fence counter.
pub proof fn listings_ask_for_the_prefix(s: Scan, r: ScanStep)
    requires
        s.wf(),
        call_ensures(Scan::next_step, (&s,), r),
    ensures
        r is Key <==> s.at < s.batch@.len(),
        r is Done <==> s.at == s.batch@.len() && !s.fresh && s.cursor == 0,
        r matches ScanStep::Key { lease, counter } ==> lease@.name == "PTTL"@ && lease@.args
            =~= seq![ArgV::Text(s.batch@[s.at as int]@)] && counter@.name == "EXISTS"@
            && counter@.args =~= seq![ArgV::Text(fence_key(s.batch@[s.at as int]@))],
        r matches ScanStep::Batch(c) ==> c@.name == "SCAN"@ && c@.args.len() == 5 && c@.args[0]
            == ArgV::Int(s.cursor) && c@.args[1] == ArgV::Text("MATCH"@) && c@.args[3]
            == ArgV::Text("COUNT"@) && c@.args[4] == ArgV::Int(500) && (c@.args[2]
            matches ArgV::Text(pattern) && forall|key: Seq<char>| #[trigger]
            matched(pattern, key) <==> s.prefix@.is_prefix_of(key)),
{
    assert forall|key: Seq<char>| #[trigger]
        matched(crate::scan::pattern_of(s.prefix@), key) <==> s.prefix@.is_prefix_of(key) by {
        crate::scan::patterns_match_the_prefix(s.prefix@, key);
    }
}

/// A key joins a listing if it begins with the prefix, has a lease, was not
/// listed before, and is a lock: its name is none that is kept beside locks, or
/// it has a fence counter of its own.
pub proof fn listings_take_the_held_locks(s: &mut Scan, lease: Option<i64>, counted: Option<i64>)
    requires
        old(s).wf(),
        old(s).at < old(s).batch@.len(),
        call_ensures(Scan::take_key, (s, lease, counted), ()),
    ensures
        ({
            let key = old(s).batch@[old(s).at as int]@;
            let was = old(s).found@;
            let joins = old(s).prefix@.is_prefix_of(key) && lease is Some && lease->0 > 0 && (
            !side_named(key) || (counted is Some && counted->0 > 0)) && forall|i: int|
                0 <= i < was.len() ==> (#[trigger] was[i]).0@ != key;
            &&& joins ==> final(s).found@.len() == was.len() + 1 && final(s).found@.last().0@ == key
                && final(s).found@.last().1 == lease->0
            &&& !joins ==> final(s).found@.len() == was.len()
            &&& forall|i: int|
                0 <= i < was.len() ==> (#[trigger] final(s).found@[i]).0@ == was[i].0@
                    && final(s).found@[i].1 == was[i].1
        }),
        final(s).at == old(s).at + 1,
        final(s).batch == old(s).batch && final(s).cursor == old(s).cursor && final(s).prefix
            == old(s).prefix && final(s).fresh == old(s).fresh,
{
    let key = old(s).batch@[old(s).at as int]@;
    let was = old(s).found@;
    let e = crate::scan::entries(was);
    let f = crate::scan::entries(final(s).found@);
    assert(e.len() == was.len() && f.len() == final(s).found@.len());
    assert forall|i: int| 0 <= i < was.len() implies e[i].0 == (#[trigger] was[i]).0@ && e[i].1
        == was[i].1 by {}
    assert(crate::scan::listed(e, key) <==> exists|i: int|
        0 <= i < was.len() && (#[trigger] was[i]).0@ == key) by {
        if crate::scan::listed(e, key) {
            let i = choose|i: int| 0 <= i < e.len() && (#[trigger] e[i]).0 == key;
            assert(was[i].0@ == key);
        }
        if exists|i: int| 0 <= i < was.len() && (#[trigger] was[i]).0@ == key {
            let i = choose|i: int| 0 <= i < was.len() && (#[trigger] was[i]).0@ == key;
            assert(e[i].0 == key);
        }
    }
    assert forall|i: int| 0 <= i < was.len() implies (#[trigger] final(s).found@[i]).0@ == was[i].0@
        && final(s).found@[i].1 == was[i].1 by {
        assert(f[i] == e[i]);
        assert(f[i].0 == final(s).found@[i].0@);
    }
    if f.len() == e.len() + 1 {
        assert(f.last().0 == final(s).found@.last().0@ && f.last().1 == final(s).found@.last().1);
    }
}

/// Ordinary names are not those of what is kept beside locks.
pub proof fn ordinary_names_are_locks(name: &str, r: bool)
    requires
        call_ensures(is_side_named, (name,), r),
    ensures
        r ==> "{"@.is_prefix_of(name@) || ":will"@.is_suffix_of(name@) || ":data"@.is_suffix_of(
            name@,
        ),
        ":will"@.is_suffix_of(name@) || ":data"@.is_suffix_of(name@) ==> r,
        "{"@.is_prefix_of(name@) && (":fence"@.is_suffix_of(name@) || ":q"@.is_suffix_of(name@))
            ==> r,
{
}

/// The tag of a key is what stands in its first braces; without such braces it
/// has none.
pub proof fn tags_stand_in_the_first_braces(
    front: Seq<char>,
    tag: Seq<char>,
    back: Seq<char>,
    key: &str,
    r: Option<String>,
)
    requires
        !front.contains('{'),
        !tag.contains('}'),
        call_ensures(own_tag_of, (key,), r),
    ensures
        key@ == front + seq!['{'] + tag + seq!['}'] + back && tag.len() > 0 ==> r is Some && r->0@
            == tag,
        key@ == front + seq!['{', '}'] + back ==> r is None,
        key@ == front ==> r is None,
        key@ == front + seq!['{'] + tag ==> r is None,
{
    lemma_tags(front, tag, back);
}

proof fn lemma_tags(front: Seq<char>, tag: Seq<char>, back: Seq<char>)
    requires
        !front.contains('{'),
        !tag.contains('}'),
    ensures
        tag.len() > 0 ==> own_tag(front + seq!['{'] + tag + seq!['}'] + back) == Some(tag),
        own_tag(front + seq!['{', '}'] + back) is None,
        own_tag(front) is None,
        own_tag(front + seq!['{'] + tag) is None,
{
    let n = front.len() as int;
    let m = tag.len() as int;
    let a = front + seq!['{'] + tag + seq!['}'] + back;
    let b = front + seq!['{', '}'] + back;
    let c = front + seq!['{'] + tag;
    assert forall|i: int| 0 <= i < n implies front[i] != '{' by {
        assert(front.contains(front[i]));
    }
    assert forall|i: int| 0 <= i < m implies tag[i] != '}' by {
        assert(tag.contains(tag[i]));
    }
    assert forall|i: int| 0 <= i < n implies a[i] == front[i] && b[i] == front[i] && c[i]
        == front[i] by {}
    assert forall|i: int| n < i < n + 1 + m implies a[i] == tag[i - n - 1] && c[i] == tag[i - n
        - 1] by {}
    lemma_at(a, '{', 0, n);
    lemma_at(b, '{', 0, n);
    lemma_at(c, '{', 0, n);
    lemma_nowhere(front, '{', 0);
    lemma_at(a, '}', n + 1, n + 1 + m);
    lemma_at(b, '}', n + 1, n + 1);
    lemma_nowhere(c, '}', n + 1);
    assert(a.subrange(n + 1, n + 1 + m) =~= tag);
}

proof fn lemma_at(s: Seq<char>, c: char, from: int, at: int)
    requires
        0 <= from <= at < s.len(),
        s[at] == c,
        forall|i: int| from <= i < at ==> s[i] != c,
    ensures
        first_from(s, c, from) == Some(at),
    decreases at - from,
{
    if from < at {
        lemma_at(s, c, from + 1, at);
    }
}

proof fn lemma_nowhere(s: Seq<char>, c: char, from: int)
    requires
        0 <= from <= s.len(),
        forall|i: int| from <= i < s.len() ==> s[i] != c,
    ensures
        first_from(s, c, from) is None,
    decreases s.len() - from,
{
    if from < s.len() {
        lemma_nowhere(s, c, from + 1);
    }
}

/// The fence counter of a key without braces is the key in braces and `:fence`;
/// a key with a tag keeps it in front.
pub proof fn fence_counters_are_named_after_their_lock(
    front: Seq<char>,
    tag: Seq<char>,
    back: Seq<char>,
    key: &str,
    r: String,
)
    requires
        !front.contains('{'),
        !tag.contains('}'),
        tag.len() > 0,
        call_ensures(fence_key_for, (key,), r),
    ensures
        key@ == front ==> r@ == "{"@ + key@ + "}:fence"@,
        key@ == front + seq!['{'] + tag + seq!['}'] + back ==> r@ == "{"@ + tag + "}:"@ + key@
            + "::fence"@,
{
    reveal_strlit("}:");
    reveal_strlit("fence");
    reveal_strlit("}:fence");
    reveal_strlit("::");
    reveal_strlit("::fence");
    lemma_tags(front, tag, back);
    if key@ == front {
        assert(r@ =~= "{"@ + key@ + "}:fence"@);
    }
    if key@ == front + seq!['{'] + tag + seq!['}'] + back {
        assert(r@ =~= "{"@ + tag + "}:"@ + key@ + "::fence"@);
    }
}

/// A will is stored, read and deleted on the lock and beside it, under the
/// holder's token.
pub proof fn wills_stand_beside_their_lock(
    m: RedisLockManager,
    key: &str,
    token: &str,
    ttl: Span,
    payload: Vec<u8>,
    set: Invocation,
    read: Invocation,
    clear: Invocation,
)
    requires
        fits(ttl),
        call_ensures(RedisLockManager::set_testament, (&m, key, token, &ttl, payload), set),
        call_ensures(RedisLockManager::read_testament, (&m, key), read),
        call_ensures(RedisLockManager::clear_testament, (&m, key, token), clear),
    ensures
        set@.program == ProgramV::Known(Script::WillSet) && set@.keys =~= seq![
            key@,
            key@ + ":will"@,
        ] && set@.args =~= seq![
            ArgV::Text(token@),
            ArgV::Bytes(payload@),
            ArgV::Int(lease_ms(ttl)),
        ],
        read@.program == ProgramV::Known(Script::WillGet) && read@.keys =~= seq![
            key@,
            key@ + ":will"@,
        ] && read@.args.len() == 0,
        clear@.program == ProgramV::Known(Script::WillDel) && clear@.keys =~= seq![
            key@,
            key@ + ":will"@,
        ] && clear@.args =~= seq![ArgV::Text(token@)],
{
}

/// A will is stored if the store took it, told as it was stored, and cleared
/// whatever was there.
pub proof fn wills_are_told_as_they_were_stored(
    m: RedisLockManager,
    key: &str,
    n: Result<i64, String>,
    left: Result<Option<Vec<u8>>, String>,
    set: Result<(), Error>,
    read: Result<Option<Vec<u8>>, Error>,
    cleared: Result<(), Error>,
)
    requires
        call_ensures(RedisLockManager::testament_set, (&m, key, n), set),
        call_ensures(RedisLockManager::testament_read, (&m, left), read),
        call_ensures(RedisLockManager::testament_cleared, (&m, n), cleared),
    ensures
        set is Ok <==> n == Ok::<i64, String>(1),
        n is Ok && set is Err ==> set->Err_0@ == (ErrorV::Lost { key: key@, fence: 0 }),
        read is Ok <==> left is Ok,
        read matches Ok(v) ==> v == left->Ok_0,
        cleared is Ok <==> n is Ok,
        n is Err ==> set->Err_0@ is Backend && cleared->Err_0@ is Backend,
{
}

} // verus!
