//! What calls are made of, how connections are made, and what handles tell.

use vstd::prelude::*;

use crate::command::{ArgV, Command, Invocation, ProgramV, Script};
use crate::config::RedisConfig;
use crate::error::{Error, ErrorV};
use crate::fair::{FairLockHandle, FairWait, PendingFair};
use crate::fencing::FencingToken;
use crate::latch::RedisCountDownLatch;
use crate::leases::LeaseCalls;
use crate::options::LockOptions;
use crate::owner::OwnerId;
use crate::poll::{deadline_after, Waiting};
use crate::promises::locks::{given_or, keeps_counter, parts};
use crate::redlock::{RedlockConfig, RedlockHandle, RedlockManager, RedlockRound, RingDial};
use crate::reentrant::{hold_answer, ReentrantLockHandle};
use crate::rwlock::{PendingRead, PendingWrite, RwReadHandle, RwWriteHandle};
use crate::scan::Scan;
use crate::semantic::{PendingSemantic, SemanticGuard};
use crate::single::{acquire_invocation, extend_invocation, farewell_calls, fence_key,
    owner_answer, release_invocation, Farewell, RedisLockHandle, RedisLockManager};
use crate::span::Span;
use crate::table::Table;
use crate::testament::clear_will_invocation;

verus! {

/// A call starts empty, and every key and argument is appended to it.
pub proof fn calls_are_built_in_order(
    s: Script,
    source: String,
    fresh: Invocation,
    made: Invocation,
    i: Invocation,
    t: &str,
    n: u64,
    b: Vec<u8>,
    keyed: Invocation,
    texted: Invocation,
    numbered: Invocation,
    stuffed: Invocation,
)
    requires
        call_ensures(Invocation::call, (s,), fresh),
        call_ensures(Invocation::composed, (source,), made),
        call_ensures(Invocation::key, (i, t), keyed),
        call_ensures(Invocation::text, (i, t), texted),
        call_ensures(Invocation::num, (i, n), numbered),
        call_ensures(Invocation::bytes, (i, b), stuffed),
    ensures
        fresh@.program == ProgramV::Known(s) && made@.program == ProgramV::Composed(source@),
        fresh@.keys.len() == 0 && fresh@.args.len() == 0,
        made@.keys.len() == 0 && made@.args.len() == 0,
        keyed@.program == i@.program && keyed@.keys == i@.keys.push(t@) && keyed@.args == i@.args,
        texted@.program == i@.program && texted@.keys == i@.keys && texted@.args == i@.args.push(
            ArgV::Text(t@),
        ),
        numbered@.program == i@.program && numbered@.keys == i@.keys && numbered@.args
            == i@.args.push(ArgV::Int(n)),
        stuffed@.program == i@.program && stuffed@.keys == i@.keys && stuffed@.args
            == i@.args.push(ArgV::Bytes(b@)),
{
}

/// A command starts with its name, and every argument is appended to it.
pub proof fn commands_are_built_in_order(
    name: &str,
    fresh: Command,
    c: Command,
    t: &str,
    n: u64,
    texted: Command,
    numbered: Command,
)
    requires
        call_ensures(Command::named, (name,), fresh),
        call_ensures(Command::text, (c, t), texted),
        call_ensures(Command::num, (c, n), numbered),
    ensures
        fresh@.name == name@ && fresh@.args.len() == 0,
        texted@.name == c@.name && texted@.args == c@.args.push(ArgV::Text(t@)),
        numbered@.name == c@.name && numbered@.args == c@.args.push(ArgV::Int(n)),
{
}

/// A manager connects where the settings are sound, the endpoint is accepted and
/// the connection is made; it then has the defaults of the settings.
pub proof fn managers_connect_as_configured(
    c: RedisConfig,
    sound: Result<(), Error>,
    ttl: Span,
    watchdog: bool,
    refusal: Option<String>,
    dialled: Result<(), String>,
    r: Result<RedisLockManager, Error>,
)
    requires
        call_ensures(RedisConfig::validate, (&c,), sound),
        call_ensures(RedisConfig::default_ttl, (&c,), ttl),
        call_ensures(RedisConfig::watchdog, (&c,), watchdog),
        call_ensures(RedisLockManager::connected, (&c, refusal, dialled), r),
    ensures
        r is Ok <==> sound is Ok && refusal is None && dialled is Ok,
        r matches Ok(m) ==> m.default_ttl@ == ttl@ && m.watchdog_default == watchdog,
        sound is Err ==> r is Err && r->Err_0@ == sound->Err_0@,
        sound is Ok && refusal is Some ==> r is Err && r->Err_0@ is InvalidConfig,
        sound is Ok && refusal is None && dialled is Err ==> r is Err && r->Err_0@ is Backend,
{
}

/// Unsound settings are refused before anything is dialled, and again after.
pub proof fn unsound_settings_never_connect(
    c: RedisConfig,
    sound: Result<(), Error>,
    prepared: Result<(), Error>,
    dialled: Result<(), String>,
    r: Result<RedisLockManager, Error>,
)
    requires
        call_ensures(RedisConfig::validate, (&c,), sound),
        call_ensures(RedisLockManager::prepare, (&c,), prepared),
        call_ensures(RedisLockManager::connect, (&c, dialled), r),
    ensures
        sound is Err ==> prepared is Err && r is Err && prepared->Err_0@ == sound->Err_0@
            && r->Err_0@ == sound->Err_0@,
        dialled is Err ==> r is Err,
        r matches Ok(m) ==> m.default_ttl@ == c@.default_ttl && m.watchdog_default == c@.watchdog,
{
}

/// A ring dials its nodes one after the other, and stops at the first that fails.
pub proof fn rings_stop_at_the_first_failure(
    d: &mut RingDial,
    outcome: Result<(), String>,
    r: Result<(), Error>,
    nodes: Vec<String>,
    config: RedlockConfig,
    count: usize,
    i: usize,
    url: &str,
)
    requires
        old(d).wf(),
        old(d).at < old(d).config@.len(),
        call_ensures(RingDial::dialled, (d, outcome), r),
        call_ensures(RedlockConfig::new, (nodes,), config),
        call_ensures(RedlockConfig::node_count, (&config,), count),
        i < nodes@.len(),
        call_ensures(RedlockConfig::node, (&config, i), url),
    ensures
        r is Ok <==> outcome is Ok,
        final(d).at == old(d).at + (if outcome is Ok {
            1int
        } else {
            0
        }),
        final(d).config == old(d).config,
        r matches Err(e) ==> e@ is Backend,
        count == nodes@.len(),
        url@ == nodes@[i as int]@,
{
}

/// Handles tell the key, the owner and the fence that they hold.
pub proof fn handles_tell_what_they_hold(
    m: RedisLockHandle,
    m_key: &str,
    m_owner: &OwnerId,
    m_fence: FencingToken,
    f: FairLockHandle,
    f_key: &str,
    f_owner: &OwnerId,
    f_fence: FencingToken,
    e: ReentrantLockHandle,
    e_key: &str,
    e_owner: &OwnerId,
    e_fence: FencingToken,
)
    requires
        call_ensures(RedisLockHandle::key, (&m,), m_key),
        call_ensures(RedisLockHandle::owner, (&m,), m_owner),
        call_ensures(RedisLockHandle::fence, (&m,), m_fence),
        call_ensures(FairLockHandle::key, (&f,), f_key),
        call_ensures(FairLockHandle::owner, (&f,), f_owner),
        call_ensures(FairLockHandle::fence, (&f,), f_fence),
        call_ensures(ReentrantLockHandle::key, (&e,), e_key),
        call_ensures(ReentrantLockHandle::owner, (&e,), e_owner),
        call_ensures(ReentrantLockHandle::fence, (&e,), e_fence),
    ensures
        m_key@ == m.key@ && *m_owner == m.owner && m_fence == m.fence,
        f_key@ == f.key@ && *f_owner == f.owner && f_fence == f.fence,
        e_key@ == e.key@ && *e_owner == e.owner && e_fence == e.fence,
{
}

/// So do the handles of read-write locks, of quorum locks, and latches.
pub proof fn slots_and_quorums_tell_what_they_hold(
    r: RwReadHandle,
    r_key: &str,
    r_fence: FencingToken,
    w: RwWriteHandle,
    w_key: &str,
    w_fence: FencingToken,
    q: RedlockHandle,
    q_key: &str,
    q_owner: &OwnerId,
    q_fence: FencingToken,
    q_lost: bool,
    l: RedisCountDownLatch,
    l_key: &str,
)
    requires
        call_ensures(RwReadHandle::key, (&r,), r_key),
        call_ensures(RwReadHandle::fence, (&r,), r_fence),
        call_ensures(RwWriteHandle::key, (&w,), w_key),
        call_ensures(RwWriteHandle::fence, (&w,), w_fence),
        call_ensures(RedlockHandle::key, (&q,), q_key),
        call_ensures(RedlockHandle::owner, (&q,), q_owner),
        call_ensures(RedlockHandle::fence, (&q,), q_fence),
        call_ensures(RedlockHandle::is_lost, (&q,), q_lost),
        call_ensures(RedisCountDownLatch::key, (&l,), l_key),
    ensures
        r_key@ == r.key@ && r_fence == r.fence,
        w_key@ == w.key@ && w_fence == w.fence,
        q_key@ == q.key@ && *q_owner == q.owner && q_fence == q.fence && q_lost == q.poisoned,
        l_key@ == l.key@,
{
}

/// A handle is let go once: the first to do so is told, and no other.
pub proof fn handles_are_let_go_once(
    f: &mut FairLockHandle,
    f_first: bool,
    e: &mut ReentrantLockHandle,
    e_first: bool,
    r: &mut RwReadHandle,
    r_first: bool,
    w: &mut RwWriteHandle,
    w_first: bool,
    q: &mut RedlockHandle,
    q_first: bool,
    m: &mut RedisLockHandle,
    m_first: bool,
)
    requires
        call_ensures(FairLockHandle::mark_gone, (f,), f_first),
        call_ensures(ReentrantLockHandle::mark_gone, (e,), e_first),
        call_ensures(RwReadHandle::mark_gone, (r,), r_first),
        call_ensures(RwWriteHandle::mark_gone, (w,), w_first),
        call_ensures(RedlockHandle::mark_gone, (q,), q_first),
        call_ensures(RedisLockHandle::mark_released, (m,), m_first),
    ensures
        (f_first <==> !old(f).gone) && final(f).gone && final(f).fence == old(f).fence,
        (e_first <==> !old(e).gone) && final(e).gone && final(e).fence == old(e).fence,
        (r_first <==> !old(r).gone) && final(r).gone && final(r).fence == old(r).fence,
        (w_first <==> !old(w).gone) && final(w).gone && final(w).fence == old(w).fence,
        (q_first <==> !old(q).gone) && final(q).gone && final(q).poisoned == old(q).poisoned,
        (m_first <==> !old(m).released) && final(m).released && final(m).poisoned == old(
            m).poisoned,
{
}

/// A quorum lock that is lost stays so, and is not released by it.
pub proof fn lost_quorums_stay_lost(q: &mut RedlockHandle)
    requires
        call_ensures(RedlockHandle::mark_lost, (q,), ()),
    ensures
        final(q).poisoned && final(q).gone == old(q).gone && final(q).owner == old(q).owner
            && final(q).key == old(q).key && final(q).fence == old(q).fence,
{
}

/// A handle made of its parts holds them, and is neither released nor lost.
pub proof fn parts_make_a_handle(
    m: RedisLockManager,
    key: &str,
    owner: OwnerId,
    fence: u64,
    ttl: Span,
    r: RedisLockHandle,
)
    requires
        call_ensures(RedisLockManager::build_handle_from_parts, (&m, key, owner, fence, ttl), r),
    ensures
        r.key@ == key@ && r.owner == owner && r.fence@ == fence && r.ttl == ttl,
        !r.released && !r.poisoned,
{
}

/// Every way to ask for a fair lock asks for the same lease.
pub proof fn fair_locks_are_asked_for_alike(
    m: RedisLockManager,
    key: &str,
    owner: OwnerId,
    options: LockOptions,
    a: Result<PendingFair, Error>,
    b: Result<PendingFair, Error>,
)
    requires
        call_ensures(RedisLockManager::try_lock_fair, (&m, key, &options), a),
        call_ensures(RedisLockManager::try_lock_fair_as, (&m, key, owner, &options), b),
    ensures
        a is Ok <==> given_or(options, m.default_ttl)@ >= 10_000_000,
        b is Ok <==> a is Ok,
        a matches Ok(p) ==> p.key@ == key@ && p.ttl == given_or(options, m.default_ttl),
        b matches Ok(p) ==> p.key@ == key@ && p.ttl == given_or(options, m.default_ttl)
            && p.owner == owner,
        a matches Err(e) ==> e@ is InvalidConfig && b is Err && b->Err_0@ == e@,
{
}

/// A wait for a fair lock has its time, keeps its owner, and asks again for the
/// same.
pub proof fn fair_waits_ask_again_for_the_same(
    m: RedisLockManager,
    key: &str,
    owner: OwnerId,
    options: LockOptions,
    wait: Span,
    now: u128,
    a: Result<FairWait, Error>,
    b: Result<FairWait, Error>,
    w: FairWait,
    p: PendingFair,
)
    requires
        now + wait@ <= u128::MAX,
        call_ensures(RedisLockManager::try_lock_fair_for, (&m, key, &options, &wait, now), a),
        call_ensures(
            RedisLockManager::try_lock_fair_for_as,
            (&m, key, owner, &options, &wait, now),
            b,
        ),
        call_ensures(FairWait::attempt, (&w,), p),
    ensures
        a is Ok <==> given_or(options, m.default_ttl)@ >= 10_000_000,
        b is Ok <==> a is Ok,
        a matches Ok(x) ==> x.waiting.key@ == key@ && x.ttl == given_or(options, m.default_ttl)
            && x.waiting.deadline is Some && x.waiting.deadline->0 == now + wait@,
        b matches Ok(x) ==> x.waiting.key@ == key@ && x.ttl == given_or(options, m.default_ttl)
            && x.owner == owner && x.waiting.deadline is Some && x.waiting.deadline->0 == now
            + wait@,
        p.key@ == w.waiting.key@ && p.owner == w.owner && p.ttl == w.ttl,
{
}

/// Accesses under an owner of their own are asked for alike.
pub proof fn minted_accesses_are_asked_for_alike(
    m: RedisLockManager,
    key: &str,
    options: LockOptions,
    r: Result<PendingRead, Error>,
    w: Result<PendingWrite, Error>,
)
    requires
        call_ensures(RedisLockManager::try_read, (&m, key, &options), r),
        call_ensures(RedisLockManager::try_write, (&m, key, &options), w),
    ensures
        r is Ok <==> given_or(options, m.default_ttl)@ >= 10_000_000,
        w is Ok <==> r is Ok,
        r matches Ok(p) ==> p.key@ == key@ && p.ttl == given_or(options, m.default_ttl),
        w matches Ok(p) ==> p.key@ == key@ && p.ttl == given_or(options, m.default_ttl),
{
}

/// Quorum locks are asked for from the first node on, under the given lease or
/// the manager's.
pub proof fn quorum_locks_start_at_the_first_node(
    m: RedlockManager,
    key: &str,
    options: LockOptions,
    a: Result<RedlockRound, Error>,
    b: Result<RedlockRound, Error>,
)
    requires
        call_ensures(RedlockManager::try_lock, (&m, key, &options), a),
        call_ensures(RedlockManager::try_lock_default, (&m, key), b),
    ensures
        a is Ok <==> given_or(options, m.default_ttl)@ >= 10_000_000,
        b is Ok <==> m.default_ttl@ >= 10_000_000,
        a matches Ok(p) ==> p.key@ == key@ && p.ttl == given_or(options, m.default_ttl)
            && p.manager == m && p.node == 0 && p.acquired@.len() == 0,
        b matches Ok(p) ==> p.key@ == key@ && p.ttl == m.default_ttl && p.manager == m && p.node
            == 0 && p.acquired@.len() == 0,
{
}

/// Waits for accesses and quorum locks have their time.
pub proof fn bounded_waits_have_their_time(
    m: RedisLockManager,
    ring: RedlockManager,
    key: &str,
    wait: Span,
    now: u128,
    r: Waiting,
    w: Waiting,
    q: Waiting,
    d: Option<u128>,
)
    requires
        now + wait@ <= u128::MAX,
        call_ensures(RedisLockManager::try_read_for, (&m, key, &wait, now), r),
        call_ensures(RedisLockManager::try_write_for, (&m, key, &wait, now), w),
        call_ensures(RedlockManager::try_lock_for, (&ring, key, &wait, now), q),
        call_ensures(deadline_after, (now, &wait), d),
    ensures
        r.key@ == key@ && w.key@ == key@ && q.key@ == key@,
        d is Some && d->0 == now + wait@,
        r.deadline == d && w.deadline == d && q.deadline == d,
        !r.clipped && !w.clipped && !q.clipped,
{
}

/// A guard starts without predicates, keeps them in order, and needs one.
pub proof fn guards_need_a_predicate(
    key: &str,
    fresh: SemanticGuard,
    g: SemanticGuard,
    r: Result<PendingSemantic, Error>,
)
    requires
        call_ensures(SemanticGuard::new, (key,), fresh),
        call_ensures(SemanticGuard::acquire, (g,), r),
    ensures
        fresh.key@ == key@ && fresh.preds@.len() == 0 && fresh.ttl@ == 30_000_000_000
            && !fresh.watchdog,
        r is Ok <==> g.preds@.len() > 0,
        r matches Ok(p) ==> p.guard == g,
        r matches Err(e) ==> e@ is InvalidConfig,
{
}

/// The calls on a lock speak of its key and its counter, and of its owner.
pub proof fn calls_speak_of_one_lock(
    key: &str,
    token: &str,
    ttl: Span,
    a: Invocation,
    r: Invocation,
    x: Invocation,
    f: Farewell,
    w: Invocation,
)
    requires
        ttl@ / 1_000_000 * 10 <= u64::MAX,
        call_ensures(acquire_invocation, (key, token, &ttl), a),
        call_ensures(release_invocation, (key, token), r),
        call_ensures(extend_invocation, (key, token, &ttl), x),
        call_ensures(farewell_calls, (key, token), f),
        call_ensures(clear_will_invocation, (key, token), w),
    ensures
        a@.program == ProgramV::Known(Script::Acquire) && x@.program == ProgramV::Known(
            Script::Extend,
        ) && r@.program == ProgramV::Known(Script::Release),
        a@.keys =~= seq![key@, fence_key(key@)] && x@.keys =~= seq![key@, fence_key(key@)],
        r@.keys[0] == key@ && r@.args[0] == ArgV::Text(token@),
        a@.args =~= seq![
            ArgV::Text(token@),
            ArgV::Int((ttl@ / 1_000_000) as u64),
            ArgV::Int((ttl@ / 1_000_000 * 10) as u64),
        ],
        x@.args =~= a@.args,
        parts(f, key@, token@),
        w@.program == ProgramV::Known(Script::WillDel) && w@.keys =~= seq![
            key@,
            key@ + ":will"@,
        ] && w@.args =~= seq![ArgV::Text(token@)],
{
}

/// The store's word decides: one is yes, any other count is no, and a failure is
/// told with what failed; holds are lost below zero.
pub proof fn answers_are_the_stores_word(
    what: &str,
    reply: Result<i64, String>,
    key: &str,
    fence: FencingToken,
    r: Result<bool, Error>,
    h: Result<(), Error>,
)
    requires
        call_ensures(owner_answer, (what, reply), r),
        call_ensures(hold_answer, (what, reply, key, fence), h),
    ensures
        r == Ok::<bool, Error>(true) <==> reply == Ok::<i64, String>(1),
        r is Err <==> reply is Err,
        h is Ok <==> reply is Ok && reply->Ok_0 >= 0,
        reply is Ok && h is Err ==> h->Err_0@ == (ErrorV::Lost { key: key@, fence: fence@ }),
        reply matches Err(m) ==> r->Err_0@ == ErrorV::Backend(what@ + m@) && h->Err_0@
            == ErrorV::Backend(what@ + m@),
{
}

/// The counter outlives the lock ten times, and is kept before the lock is let go.
pub proof fn counters_are_kept_first(key: &str, ms: u64, lock: Invocation, c: LeaseCalls)
    requires
        call_ensures(LeaseCalls::new, (key, ms, lock), c),
    ensures
        keeps_counter(c, key@, ms),
        c.lock@ == lock@,
{
}

/// A listing starts at the beginning, takes each batch whole, and tells what
/// failed.
pub proof fn listings_take_each_batch_whole(
    m: RedisLockManager,
    prefix: &str,
    s: Scan,
    t: &mut Scan,
    cursor: u64,
    keys: Vec<String>,
    cause: &str,
    e: Error,
)
    requires
        call_ensures(RedisLockManager::scan_held, (&m, prefix), s),
        old(t).wf(),
        old(t).at == old(t).batch@.len(),
        call_ensures(Scan::take_batch, (t, cursor, keys), ()),
        call_ensures(Scan::failed, (cause,), e),
    ensures
        s.prefix@ == prefix@ && s.fresh && s.cursor == 0 && s.found@.len() == 0 && s.batch@.len()
            == 0,
        final(t).batch == keys && final(t).at == 0 && final(t).cursor == cursor && !final(t).fresh,
        final(t).found == old(t).found && final(t).prefix == old(t).prefix,
        e@ == ErrorV::Backend("scan failed: "@ + cause@),
{
}

/// A table is empty at first, and is asked what it holds.
pub proof fn tables_tell_what_they_hold(
    fresh: Table<u64>,
    t: Table<u64>,
    key: &str,
    there: bool,
    found: Option<&u64>,
    n: usize,
    k: Seq<char>,
)
    requires
        call_ensures(Table::<u64>::new, (), fresh),
        call_ensures(Table::<u64>::contains, (&t, key), there),
        call_ensures(Table::<u64>::get, (&t, key), found),
        call_ensures(Table::<u64>::len, (&t,), n),
    ensures
        !fresh@.dom().contains(k),
        there <==> t@.dom().contains(key@),
        found is Some <==> there,
        found matches Some(v) ==> *v == t@[key@],
        n == t@.dom().len(),
{
}

/// A latch is created unless the store fails; the first fence is zero; an owner
/// of given bits has them.
pub proof fn beginnings_are_as_told(
    key: &str,
    reply: Result<i64, String>,
    l: Result<RedisCountDownLatch, Error>,
    zero: FencingToken,
    bits: u128,
    o: OwnerId,
    options: LockOptions,
)
    requires
        call_ensures(RedisCountDownLatch::created, (key, reply), l),
        call_ensures(FencingToken::zero, (), zero),
        call_ensures(OwnerId::from_bits, (bits,), o),
        call_ensures(LockOptions::default, (), options),
    ensures
        l is Ok <==> reply is Ok,
        l matches Ok(x) ==> x.key@ == key@,
        l matches Err(e) ==> e@ is Backend,
        zero@ == 0,
        o.bits == bits,
        options.ttl is None && options.watchdog is None && options.safety_policy is Balanced,
{
}

} // verus!
