//! The locks on one instance: what is asked of the store and what follows.

use vstd::prelude::*;

use crate::command::{ArgV, Command, Invocation, ProgramV, Script};
use crate::error::{Error, ErrorV};
use crate::fair::{FairLockHandle, PendingFair};
use crate::latch::{LatchWait, RedisCountDownLatch};
use crate::leases::LeaseCalls;
use crate::options::LockOptions;
use crate::owner::OwnerId;
use crate::poll::{PollStep, Waiting};
use crate::reentrant::{PendingReentrant, ReentrantLockHandle};
use crate::rwlock::{PendingRead, PendingWrite, RwReadHandle, RwWriteHandle};
use crate::single::{fence_key, renewal_outcome, DescribeCalls, Farewell, PendingLock,
    RedisLockHandle, RedisLockManager};
use crate::span::Span;
use crate::text::decimal;
use crate::watchdog::Renewal;

verus! {

/// A lease whose milliseconds, and ten times as many, can be sent.
pub open spec fn fits(ttl: Span) -> bool {
    ttl@ / 1_000_000 <= 1_000_000_000_000_000_000
}

/// The milliseconds of a lease.
pub open spec fn lease_ms(ttl: Span) -> u64 {
    (ttl@ / 1_000_000) as u64
}

/// The call runs `script` on the lock `key` and its fence counter, under
/// `token`, with the lease and ten times the lease for the counter.
pub open spec fn leases(
    i: Invocation,
    script: Script,
    key: Seq<char>,
    token: Seq<char>,
    ttl: Span,
) -> bool {
    &&& i@.program == ProgramV::Known(script)
    &&& i@.keys =~= seq![key, fence_key(key)]
    &&& i@.args =~= seq![
        ArgV::Text(token),
        ArgV::Int(lease_ms(ttl)),
        ArgV::Int((lease_ms(ttl) * 10) as u64),
    ]
}

/// The call runs `script` on the lock `key` alone, under `token` and with the
/// number that is given, if one is.
pub open spec fn touches(
    i: Invocation,
    script: Script,
    key: Seq<char>,
    token: Seq<char>,
    number: Option<u64>,
) -> bool {
    &&& i@.program == ProgramV::Known(script)
    &&& i@.keys =~= seq![key]
    &&& i@.args =~= match number {
        Some(n) => seq![ArgV::Text(token), ArgV::Int(n)],
        None => seq![ArgV::Text(token)],
    }
}

/// The calls keep the fence counter of `key` ten times as long as a lease of
/// `ms` milliseconds, before anything else.
pub open spec fn keeps_counter(c: LeaseCalls, key: Seq<char>, ms: u64) -> bool {
    &&& c.keep@.program == ProgramV::Known(Script::FenceKeep)
    &&& c.keep@.keys =~= seq![fence_key(key)]
    &&& c.keep@.args =~= seq![
        ArgV::Int(
            if ms * 10 <= i64::MAX {
                (ms * 10) as u64
            } else {
                ms
            },
        ),
    ]
}

/// The calls delete the will of `key` and then free it, both under `token`.
pub open spec fn parts(f: Farewell, key: Seq<char>, token: Seq<char>) -> bool {
    &&& f.clear_will@.program == ProgramV::Known(Script::WillDel)
    &&& f.clear_will@.keys =~= seq![key, key + ":will"@]
    &&& f.clear_will@.args =~= seq![ArgV::Text(token)]
    &&& f.release@.program == ProgramV::Known(Script::Release)
    &&& f.release@.keys =~= seq![key, fence_key(key)]
    &&& f.release@.args =~= seq![ArgV::Text(token)]
}

/// The lease that options lead to.
pub open spec fn given_or(options: LockOptions, default: Span) -> Span {
    if options.ttl is Some {
        options.ttl->0
    } else {
        default
    }
}

/// An attempt asks for the key, under the lease that its options give or the
/// manager's, and is refused for a lease below ten milliseconds and for nothing
/// else.
pub proof fn attempts_ask_for_what_is_wanted(
    m: RedisLockManager,
    key: &str,
    owner: OwnerId,
    options: LockOptions,
    r: Result<PendingLock, Error>,
)
    requires
        fits(given_or(options, m.default_ttl)),
        call_ensures(RedisLockManager::try_lock_as, (&m, key, owner, &options), r),
    ensures
        r is Ok <==> given_or(options, m.default_ttl)@ >= 10_000_000,
        r matches Ok(p) ==> p.key@ == key@ && p.owner == owner && p.ttl == given_or(
            options,
            m.default_ttl,
        ) && p.watchdog == (if options.watchdog is Some {
            options.watchdog->0
        } else {
            m.watchdog_default
        }),
        r matches Err(e) ==> e@ is InvalidConfig,
{
}

/// The forms that mint their owner ask for the same.
pub proof fn minted_attempts_ask_for_the_same(
    m: RedisLockManager,
    key: &str,
    owner: OwnerId,
    options: LockOptions,
    with: Result<PendingLock, Error>,
    named: Result<PendingLock, Error>,
    plain: Result<PendingLock, Error>,
)
    requires
        fits(given_or(options, m.default_ttl)),
        fits(m.default_ttl),
        call_ensures(RedisLockManager::try_lock_with, (&m, key, &options), with),
        call_ensures(RedisLockManager::try_lock_as, (&m, key, owner, &options), named),
        call_ensures(RedisLockManager::try_lock, (&m, key), plain),
    ensures
        with is Ok <==> named is Ok,
        match (with, named) {
            (Ok(a), Ok(b)) => a.key@ == b.key@ && a.ttl == b.ttl && a.watchdog == b.watchdog,
            (Err(a), Err(b)) => a@ == b@,
            _ => true,
        },
        plain is Ok <==> m.default_ttl@ >= 10_000_000,
        plain matches Ok(p) ==> p.key@ == key@ && p.ttl == m.default_ttl && p.watchdog
            == m.watchdog_default,
{
}

/// From the attempt to the release one owner is behind a mutex: what is asked
/// for under a token is held, renewed and released under it.
pub proof fn mutexes_keep_their_token(
    p: PendingLock,
    asked: Invocation,
    reply: Result<(i64, i64), String>,
    r: Result<RedisLockHandle, Error>,
)
    requires
        fits(p.ttl),
        call_ensures(PendingLock::invocation, (&p,), asked),
        call_ensures(PendingLock::complete, (p, reply), r),
    ensures
        leases(asked, Script::Acquire, p.key@, p.owner.token_text(), p.ttl),
        match reply {
            Ok((status, fence)) => {
                &&& r is Ok <==> status == 1 || status == 2
                &&& r matches Ok(h) ==> h.key@ == p.key@ && h.owner == p.owner && h.ttl == p.ttl
                    && !h.released && !h.poisoned && (fence >= 0 ==> h.fence@ == fence)
                &&& r matches Err(e) ==> e@ == (ErrorV::Held { key: p.key@ })
            },
            Err(m) => r matches Err(e) && e@ == ErrorV::Backend("acquire script failed: "@ + m@),
        },
{
}

/// A mutex is renewed in full by its watchdog, and extended to what is asked
/// unless that is too short or the lock was released.
pub proof fn mutexes_are_renewed_in_full(
    h: RedisLockHandle,
    ttl: Span,
    renewal: Invocation,
    r: Result<Invocation, Error>,
)
    requires
        fits(h.ttl),
        fits(ttl),
        call_ensures(RedisLockHandle::renewal, (&h,), renewal),
        call_ensures(RedisLockHandle::extend, (&h, &ttl), r),
    ensures
        leases(renewal, Script::Extend, h.key@, h.owner.token_text(), h.ttl),
        r is Ok <==> ttl@ >= 10_000_000 && !h.released,
        r matches Ok(i) ==> leases(i, Script::Extend, h.key@, h.owner.token_text(), ttl),
        r matches Err(e) ==> (if ttl@ < 10_000_000 {
            e@ is InvalidConfig
        } else {
            e@ == (ErrorV::Lost { key: h.key@, fence: h.fence@ })
        }),
{
}

/// A mutex is lost exactly when the store says that another owns it; silence
/// changes nothing.
pub proof fn mutexes_are_lost_by_the_stores_word(
    h: &mut RedisLockHandle,
    reply: Result<i64, String>,
    r: Result<(), Error>,
    outcome: Renewal,
)
    requires
        call_ensures(RedisLockHandle::extended, (h, reply), r),
        call_ensures(renewal_outcome, (&reply,), outcome),
    ensures
        r is Ok <==> reply == Ok::<i64, String>(1),
        outcome == Renewal::Renewed <==> reply == Ok::<i64, String>(1),
        outcome == Renewal::Failed <==> reply is Err,
        final(h).poisoned == (old(h).poisoned || outcome == Renewal::NotOwner),
        final(h).released == old(h).released && final(h).key == old(h).key && final(h).owner
            == old(h).owner && final(h).fence == old(h).fence && final(h).ttl == old(h).ttl,
        reply is Ok && r is Err ==> (r matches Err(e) && e@ == (ErrorV::Lost {
            key: old(h).key@,
            fence: old(h).fence@,
        })),
{
}

/// A mutex is released once, with its will deleted first, under its own token.
pub proof fn mutexes_are_released_once(
    h: &mut RedisLockHandle,
    r: Option<Farewell>,
    reply: Result<i64, String>,
    done: Result<(), Error>,
)
    requires
        call_ensures(RedisLockHandle::release_answer, (&*h, reply), done),
        call_ensures(RedisLockHandle::release, (h,), r),
    ensures
        r is Some <==> !old(h).released,
        r matches Some(f) ==> parts(f, old(h).key@, old(h).owner.token_text()),
        final(h).released,
        final(h).poisoned == old(h).poisoned && final(h).key == old(h).key && final(h).owner
            == old(h).owner && final(h).fence == old(h).fence && final(h).ttl == old(h).ttl,
        done is Ok <==> reply == Ok::<i64, String>(1),
        done matches Err(e) ==> (if reply is Ok {
            e@ == (ErrorV::Lost { key: old(h).key@, fence: old(h).fence@ })
        } else {
            e@ is Backend
        }),
{
}

/// A dropped mutex is released, but its will stays for the successor; one that
/// was released or handed over sends nothing.
pub proof fn dropped_mutexes_leave_their_will(
    h: &mut RedisLockHandle,
    r: Option<Invocation>,
)
    requires
        call_ensures(RedisLockHandle::dropped, (h,), r),
    ensures
        r is Some <==> !old(h).released,
        r matches Some(i) ==> i@.program == ProgramV::Known(Script::Release) && i@.keys =~= seq![
            old(h).key@,
            fence_key(old(h).key@),
        ] && i@.args =~= seq![ArgV::Text(old(h).owner.token_text())],
        final(h).released,
{
}

/// Handing a lock over and losing it are remembered, and nothing else changes.
pub proof fn marks_are_remembered(h: &mut RedisLockHandle, g: &mut RedisLockHandle, lost: bool)
    requires
        call_ensures(RedisLockHandle::disarm, (h,), ()),
        call_ensures(RedisLockHandle::mark_lost, (g,), ()),
        call_ensures(RedisLockHandle::is_lost, (&*g,), lost),
    ensures
        *final(h) == (RedisLockHandle { released: true, ..*old(h) }),
        *final(g) == (RedisLockHandle { poisoned: true, ..*old(g) }),
        lost == old(g).poisoned,
{
}

/// Without a handle a lock is released and renewed by its token alone.
pub proof fn tokens_suffice(
    m: RedisLockManager,
    key: &str,
    token: &str,
    ttl: Span,
    f: Farewell,
    r: Result<Invocation, Error>,
    reply: Result<i64, String>,
    unlocked: Result<bool, Error>,
    extended: Result<bool, Error>,
)
    requires
        fits(ttl),
        call_ensures(RedisLockManager::unlock_with_token, (&m, key, token), f),
        call_ensures(RedisLockManager::extend_with_token, (&m, key, token, &ttl), r),
        call_ensures(RedisLockManager::unlocked_with_token, (&m, reply), unlocked),
        call_ensures(RedisLockManager::extended_with_token, (&m, reply), extended),
    ensures
        parts(f, key@, token@),
        r is Ok <==> ttl@ >= 10_000_000,
        r matches Ok(i) ==> leases(i, Script::Extend, key@, token@, ttl),
        unlocked is Ok <==> reply is Ok,
        extended is Ok <==> reply is Ok,
        unlocked matches Ok(b) ==> b == (reply == Ok::<i64, String>(1)),
        extended matches Ok(b) ==> b == (reply == Ok::<i64, String>(1)),
        unlocked matches Err(e) ==> e@ is Backend,
        extended matches Err(e) ==> e@ is Backend,
{
}

/// A key is probed, described and forced open by commands on that key, and what
/// is told of it is what the store answered.
pub proof fn keys_are_told_as_they_are(
    m: RedisLockManager,
    key: &str,
    probe: Command,
    force: Command,
    d: DescribeCalls,
    n: Result<i64, String>,
    version: Result<Option<u64>, String>,
    lease: Result<i64, String>,
    probed: Result<bool, Error>,
    forced: Result<bool, Error>,
    r: Result<(bool, u64, u64), Error>,
)
    requires
        call_ensures(RedisLockManager::probe_held, (&m, key), probe),
        call_ensures(RedisLockManager::force_unlock, (&m, key), force),
        call_ensures(RedisLockManager::describe_key, (&m, key), d),
        call_ensures(RedisLockManager::probed, (&m, n), probed),
        call_ensures(RedisLockManager::force_unlocked, (&m, n), forced),
        call_ensures(RedisLockManager::described, (&m, n, version, lease), r),
    ensures
        probe@.name == "EXISTS"@ && probe@.args =~= seq![ArgV::Text(key@)],
        force@.name == "DEL"@ && force@.args =~= seq![ArgV::Text(key@)],
        d.held@.name == "EXISTS"@ && d.held@.args =~= seq![ArgV::Text(key@)],
        d.version@.name == "GET"@ && d.version@.args =~= seq![ArgV::Text(fence_key(key@))],
        d.lease@.name == "PTTL"@ && d.lease@.args =~= seq![ArgV::Text(key@)],
        n matches Ok(k) ==> probed == Ok::<bool, Error>(k > 0) && forced == Ok::<bool, Error>(
            k > 0,
        ),
        n is Err ==> probed is Err && forced is Err,
        r is Ok <==> n is Ok && version is Ok && lease is Ok,
        r matches Ok((held, v, ms)) ==> {
            &&& held == (n->Ok_0 > 0)
            &&& version->Ok_0 matches Some(counted) ==> v == counted
            &&& version->Ok_0 is None ==> v == 0
            &&& held && lease->Ok_0 > 0 ==> ms == lease->Ok_0
            &&& !held || lease->Ok_0 <= 0 ==> ms == 0
        },
        r matches Err(e) ==> e@ is Backend,
{
}

/// A reentrant lock is asked for, held and given back under the owner that the
/// caller supplied; both a first and a repeated hold are grants.
pub proof fn reentrant_locks_keep_the_given_owner(
    m: RedisLockManager,
    key: &str,
    owner: OwnerId,
    options: LockOptions,
    r: Result<PendingReentrant, Error>,
    asked: Invocation,
    reply: Result<(i64, i64), String>,
    done: Result<ReentrantLockHandle, Error>,
)
    requires
        fits(given_or(options, m.default_ttl)),
        call_ensures(RedisLockManager::try_lock_reentrant, (&m, key, owner, &options), r),
        r matches Ok(p) ==> call_ensures(PendingReentrant::invocation, (&p,), asked)
            && call_ensures(PendingReentrant::complete, (p, reply), done),
    ensures
        r is Ok <==> given_or(options, m.default_ttl)@ >= 10_000_000,
        r is Ok ==> leases(
            asked,
            Script::ReentrantAcquire,
            key@,
            owner.token_text(),
            given_or(options, m.default_ttl),
        ) && match reply {
            Ok((status, fence)) => {
                &&& done is Ok <==> status == 1 || status == 2
                &&& done matches Ok(h) ==> h.key@ == key@ && h.owner == owner && !h.gone && (fence
                    >= 0 ==> h.fence@ == fence)
                &&& done matches Err(e) ==> e@ == (ErrorV::Held { key: key@ })
            },
            Err(_) => done matches Err(e) && e@ is Backend,
        },
{
}

/// A reentrant hold is given back once, alone or with all holds of its owner; a
/// hold that is known to be gone is not given back.
pub proof fn reentrant_holds_are_given_back_once(
    h: &mut ReentrantLockHandle,
    one: Option<Invocation>,
    g: &mut ReentrantLockHandle,
    all: Option<Invocation>,
    reply: Result<i64, String>,
    done: Result<(), Error>,
    done_all: Result<(), Error>,
)
    requires
        call_ensures(ReentrantLockHandle::released_one, (&*h, reply), done),
        call_ensures(ReentrantLockHandle::released_all, (&*h, reply), done_all),
        call_ensures(ReentrantLockHandle::release_one, (h,), one),
        call_ensures(ReentrantLockHandle::release_all, (g,), all),
    ensures
        one is Some <==> !old(h).gone,
        all is Some <==> !old(g).gone,
        final(h).gone && final(g).gone,
        one matches Some(i) ==> touches(
            i,
            Script::ReentrantRelease,
            old(h).key@,
            old(h).owner.token_text(),
            Some(0u64),
        ),
        all matches Some(i) ==> touches(
            i,
            Script::ReentrantReleaseAll,
            old(g).key@,
            old(g).owner.token_text(),
            None,
        ),
        reply matches Ok(n) ==> (done is Ok <==> n >= 0) && (done_all is Ok <==> n >= 0),
        reply is Err ==> done is Err && done_all is Err,
        reply is Ok && done is Err ==> (done matches Err(e) && e@ == (ErrorV::Lost {
            key: old(h).key@,
            fence: old(h).fence@,
        })),
{
}

/// A reentrant hold is renewed after its fence counter was kept; a negative
/// answer makes it gone, silence does not.
pub proof fn reentrant_holds_are_renewed(
    h: &mut ReentrantLockHandle,
    ttl: Span,
    r: Result<LeaseCalls, Error>,
    reply: Result<i64, String>,
    done: Result<(), Error>,
)
    requires
        fits(ttl),
        call_ensures(ReentrantLockHandle::extend, (&*h, &ttl), r),
        call_ensures(ReentrantLockHandle::extended, (h, reply), done),
    ensures
        r is Ok <==> ttl@ >= 10_000_000 && !old(h).gone,
        r matches Ok(c) ==> keeps_counter(c, old(h).key@, lease_ms(ttl)) && touches(
            c.lock,
            Script::ReentrantExtend,
            old(h).key@,
            old(h).owner.token_text(),
            Some(lease_ms(ttl)),
        ),
        reply matches Ok(n) ==> (done is Ok <==> n >= 0) && final(h).gone == (old(h).gone || n < 0),
        reply is Err ==> done is Err && final(h).gone == old(h).gone,
        final(h).key == old(h).key && final(h).owner == old(h).owner && final(h).fence == old(
            h,
        ).fence,
{
}

/// Readers and writers ask by their own scripts, and hold what they were
/// granted: a reader by a status of 1, a writer by any but 0.
pub proof fn readers_and_writers_ask_for_their_own(
    p: PendingRead,
    q: PendingWrite,
    asked: Invocation,
    asked_write: Invocation,
    reply: Result<(i64, i64), String>,
    r: Result<RwReadHandle, Error>,
    w: Result<RwWriteHandle, Error>,
)
    requires
        fits(p.ttl),
        fits(q.ttl),
        call_ensures(PendingRead::invocation, (&p,), asked),
        call_ensures(PendingWrite::invocation, (&q,), asked_write),
        call_ensures(PendingRead::complete, (p, reply), r),
        call_ensures(PendingWrite::complete, (q, reply), w),
    ensures
        leases(asked, Script::RwReadAcquire, p.key@, p.owner.token_text(), p.ttl),
        leases(asked_write, Script::RwWriteAcquire, q.key@, q.owner.token_text(), q.ttl),
        match reply {
            Ok((status, fence)) => {
                &&& r is Ok <==> status == 1
                &&& w is Ok <==> status != 0
                &&& r matches Ok(h) ==> h.key@ == p.key@ && h.owner == p.owner && h.ttl == p.ttl
                    && !h.gone && (fence >= 0 ==> h.fence@ == fence)
                &&& w matches Ok(h) ==> h.key@ == q.key@ && h.owner == q.owner && h.ttl == q.ttl
                    && !h.gone && (fence >= 0 ==> h.fence@ == fence)
                &&& r matches Err(e) ==> e@ == (ErrorV::Held { key: p.key@ })
                &&& w matches Err(e) ==> e@ == (ErrorV::Held { key: q.key@ })
            },
            Err(_) => (r matches Err(e) && e@ is Backend) && (w matches Err(f) && f@ is Backend),
        },
{
}

/// Requests for access are begun as their options ask.
pub proof fn accesses_are_begun_as_asked(
    m: RedisLockManager,
    key: &str,
    owner: OwnerId,
    options: LockOptions,
    r: Result<PendingRead, Error>,
    w: Result<PendingWrite, Error>,
)
    requires
        call_ensures(RedisLockManager::try_read_as, (&m, key, owner, &options), r),
        call_ensures(RedisLockManager::try_write_as, (&m, key, owner, &options), w),
    ensures
        r is Ok <==> given_or(options, m.default_ttl)@ >= 10_000_000,
        w is Ok <==> given_or(options, m.default_ttl)@ >= 10_000_000,
        r matches Ok(p) ==> p.key@ == key@ && p.owner == owner && p.ttl == given_or(
            options,
            m.default_ttl,
        ),
        w matches Ok(p) ==> p.key@ == key@ && p.owner == owner && p.ttl == given_or(
            options,
            m.default_ttl,
        ),
{
}

/// A reader's slot is given back once, and leaves the remaining readers its
/// lease after the fence counter was kept; dropped, it leaves them none.
pub proof fn reader_slots_are_given_back_once(
    h: &mut RwReadHandle,
    r: Option<LeaseCalls>,
    g: &mut RwReadHandle,
    dropped: Option<Invocation>,
    reply: Result<i64, String>,
    done: Result<(), Error>,
)
    requires
        fits(old(h).ttl),
        call_ensures(RwReadHandle::release_answer, (&*h, reply), done),
        call_ensures(RwReadHandle::release, (h,), r),
        call_ensures(RwReadHandle::dropped, (g,), dropped),
    ensures
        r is Some <==> !old(h).gone,
        dropped is Some <==> !old(g).gone,
        final(h).gone && final(g).gone,
        r matches Some(c) ==> keeps_counter(c, old(h).key@, lease_ms(old(h).ttl)) && touches(
            c.lock,
            Script::RwReadRelease,
            old(h).key@,
            old(h).owner.token_text(),
            Some(lease_ms(old(h).ttl)),
        ),
        dropped matches Some(i) ==> touches(
            i,
            Script::RwReadRelease,
            old(g).key@,
            old(g).owner.token_text(),
            Some(0u64),
        ),
        reply matches Ok(n) ==> (done is Ok <==> n >= 0),
        reply is Err ==> done is Err,
{
}

/// A writer's slot is given back once, dropped or released alike.
pub proof fn writer_slots_are_given_back_once(
    h: &mut RwWriteHandle,
    r: Option<Invocation>,
    g: &mut RwWriteHandle,
    dropped: Option<Invocation>,
    reply: Result<i64, String>,
    done: Result<(), Error>,
)
    requires
        call_ensures(RwWriteHandle::release_answer, (&*h, reply), done),
        call_ensures(RwWriteHandle::release, (h,), r),
        call_ensures(RwWriteHandle::dropped, (g,), dropped),
    ensures
        r is Some <==> !old(h).gone,
        dropped is Some <==> !old(g).gone,
        final(h).gone && final(g).gone,
        r matches Some(i) ==> touches(
            i,
            Script::RwWriteRelease,
            old(h).key@,
            old(h).owner.token_text(),
            None,
        ),
        dropped matches Some(i) ==> touches(
            i,
            Script::RwWriteRelease,
            old(g).key@,
            old(g).owner.token_text(),
            None,
        ),
        reply matches Ok(n) ==> (done is Ok <==> n >= 0),
        reply is Err ==> done is Err,
{
}

/// Both kinds of slots are renewed alike, after the fence counter was kept; a
/// negative answer makes a slot gone, silence does not.
pub proof fn slots_are_renewed(
    h: &mut RwReadHandle,
    g: &mut RwWriteHandle,
    ttl: Span,
    r: Result<LeaseCalls, Error>,
    w: Result<LeaseCalls, Error>,
    reply: Result<i64, String>,
    done: Result<(), Error>,
    done_write: Result<(), Error>,
)
    requires
        fits(ttl),
        call_ensures(RwReadHandle::extend, (&*h, &ttl), r),
        call_ensures(RwWriteHandle::extend, (&*g, &ttl), w),
        call_ensures(RwReadHandle::extended, (h, reply), done),
        call_ensures(RwWriteHandle::extended, (g, reply), done_write),
    ensures
        r is Ok <==> ttl@ >= 10_000_000 && !old(h).gone,
        w is Ok <==> ttl@ >= 10_000_000 && !old(g).gone,
        r matches Ok(c) ==> keeps_counter(c, old(h).key@, lease_ms(ttl)) && touches(
            c.lock,
            Script::RwExtend,
            old(h).key@,
            old(h).owner.token_text(),
            Some(lease_ms(ttl)),
        ),
        w matches Ok(c) ==> keeps_counter(c, old(g).key@, lease_ms(ttl)) && touches(
            c.lock,
            Script::RwExtend,
            old(g).key@,
            old(g).owner.token_text(),
            Some(lease_ms(ttl)),
        ),
        reply matches Ok(n) ==> (done is Ok <==> n >= 0) && final(h).gone == (old(h).gone || n < 0)
            && (done_write is Ok <==> n >= 0) && final(g).gone == (old(g).gone || n < 0),
        reply is Err ==> done is Err && final(h).gone == old(h).gone && done_write is Err
            && final(g).gone == old(g).gone,
{
}

/// A waiter for a fair lock asks with a heartbeat of its own, which lasts its
/// lease and at least two seconds; both a first and a handed-over grant count.
pub proof fn fair_waiters_stay_alive(
    p: PendingFair,
    asked: Invocation,
    reply: Result<(i64, i64), String>,
    r: Result<FairLockHandle, Error>,
)
    requires
        fits(p.ttl),
        call_ensures(PendingFair::invocation, (&p,), asked),
        call_ensures(PendingFair::complete, (p, reply), r),
    ensures
        asked@.program == ProgramV::Known(Script::FairAcquire),
        asked@.keys.len() == 4 && asked@.keys[0] == p.key@ && asked@.keys[2] == fence_key(p.key@),
        p.owner.token_text().is_suffix_of(asked@.keys[3]),
        asked@.args.len() == 4,
        asked@.args[0] == ArgV::Text(p.owner.token_text()),
        asked@.args[1] == ArgV::Int(lease_ms(p.ttl)),
        asked@.args[2] == ArgV::Int((lease_ms(p.ttl) * 10) as u64),
        asked@.args[3] matches ArgV::Int(alive) && alive >= 2_000 && alive >= lease_ms(p.ttl) && (
        alive == 2_000 || alive == lease_ms(p.ttl)),
        match reply {
            Ok((status, fence)) => {
                &&& r is Ok <==> status == 1 || status == 2
                &&& r matches Ok(h) ==> h.key@ == p.key@ && h.owner == p.owner && !h.gone && (fence
                    >= 0 ==> h.fence@ == fence)
                &&& r matches Err(e) ==> e@ == (ErrorV::Held { key: p.key@ })
            },
            Err(_) => r matches Err(e) && e@ is Backend,
        },
{
    let k = asked@.keys[3];
    let t = p.owner.token_text();
    assert(t =~= k.subrange(k.len() - t.len(), k.len() as int));
}

/// A fair lock is handed over once, whether released or dropped, and the next
/// waiter has thirty seconds to take it up.
pub proof fn fair_locks_are_handed_over_once(
    h: &mut FairLockHandle,
    r: Option<LeaseCalls>,
    g: &mut FairLockHandle,
    dropped: Option<LeaseCalls>,
    reply: Result<i64, String>,
    done: Result<(), Error>,
)
    requires
        call_ensures(FairLockHandle::release_answer, (&*h, reply), done),
        call_ensures(FairLockHandle::release, (h,), r),
        call_ensures(FairLockHandle::dropped, (g,), dropped),
    ensures
        r is Some <==> !old(h).gone,
        dropped is Some <==> !old(g).gone,
        final(h).gone && final(g).gone,
        r matches Some(c) ==> keeps_counter(c, old(h).key@, 30_000) && c.lock@.program
            == ProgramV::Known(Script::FairRelease) && c.lock@.keys.len() == 3 && c.lock@.keys[0]
            == old(h).key@ && c.lock@.keys[2] == fence_key(old(h).key@) && c.lock@.args.len() == 3
            && c.lock@.args[0] == ArgV::Text(old(h).owner.token_text()) && c.lock@.args[1]
            == ArgV::Int(30_000),
        r is Some && dropped is Some && old(h).key@ == old(g).key@ && old(h).owner == old(g).owner
            ==> dropped->0.lock@ == r->0.lock@ && dropped->0.keep@ == r->0.keep@,
        reply matches Ok(n) ==> (done is Ok <==> n >= 0),
        reply is Err ==> done is Err,
{
}

/// The release of a fair lock finds the queue and the heartbeats that its
/// waiters joined with.
pub proof fn fair_locks_find_their_waiters(
    p: PendingFair,
    asked: Invocation,
    h: &mut FairLockHandle,
    r: Option<LeaseCalls>,
)
    requires
        fits(p.ttl),
        p.key@ == old(h).key@,
        call_ensures(PendingFair::invocation, (&p,), asked),
        call_ensures(FairLockHandle::release, (h,), r),
    ensures
        r matches Some(c) ==> c.lock@.keys[1] == asked@.keys[1] && (c.lock@.args[2]
            matches ArgV::Text(prefix) && asked@.keys[3] == prefix + p.owner.token_text()),
{
}

/// A fair lock is renewed as a mutex is; an answer other than 1 makes it gone.
pub proof fn fair_locks_are_renewed(
    h: &mut FairLockHandle,
    ttl: Span,
    r: Result<Invocation, Error>,
    reply: Result<i64, String>,
    done: Result<(), Error>,
)
    requires
        fits(ttl),
        call_ensures(FairLockHandle::extend, (&*h, &ttl), r),
        call_ensures(FairLockHandle::extended, (h, reply), done),
    ensures
        r is Ok <==> ttl@ >= 10_000_000 && !old(h).gone,
        r matches Ok(i) ==> leases(
            i,
            Script::Extend,
            old(h).key@,
            old(h).owner.token_text(),
            ttl,
        ),
        done is Ok <==> reply == Ok::<i64, String>(1),
        final(h).gone == (old(h).gone || (reply is Ok && done is Err)),
        final(h).key == old(h).key && final(h).owner == old(h).owner && final(h).fence == old(
            h,
        ).fence,
{
}

/// A latch starts at one or more, is counted down and read under its key, and
/// tells what remains; it is gone where the store has none.
pub proof fn latches_tell_what_remains(
    key: &str,
    count: u32,
    created: Result<Invocation, Error>,
    l: RedisCountDownLatch,
    down: Invocation,
    get: Invocation,
    reply: Result<i64, String>,
    r: Result<u64, Error>,
)
    requires
        call_ensures(RedisCountDownLatch::create, (key, count), created),
        call_ensures(RedisCountDownLatch::count_down, (&l,), down),
        call_ensures(RedisCountDownLatch::count, (&l,), get),
        call_ensures(RedisCountDownLatch::eval_remaining, (&l, reply), r),
    ensures
        created is Ok <==> count > 0,
        created matches Ok(i) ==> i@.program == ProgramV::Known(Script::LatchInit) && i@.keys
            =~= seq![key@] && i@.args =~= seq![ArgV::Text(decimal(count as nat))],
        created matches Err(e) ==> e@ is InvalidConfig,
        down@.program == ProgramV::Known(Script::LatchCountDown) && down@.keys =~= seq![l.key@]
            && down@.args.len() == 0,
        get@.program == ProgramV::Known(Script::LatchGet) && get@.keys =~= seq![l.key@]
            && get@.args.len() == 0,
        reply matches Ok(n) ==> (if n >= 0 {
            r matches Ok(left) && left == n
        } else {
            r matches Err(e) && e@ == (ErrorV::Lost { key: l.key@, fence: 0 })
        }),
        reply is Err ==> (r matches Err(e) && e@ is Backend),
{
}

/// A wait for a latch ends at zero, at its deadline, and at the first error.
pub proof fn latch_waits_end_at_zero(
    l: RedisCountDownLatch,
    wait: Span,
    start: u128,
    w: LatchWait,
    remaining: Result<u64, Error>,
    now: u128,
    r: PollStep<()>,
)
    requires
        start + wait@ <= u128::MAX,
        call_ensures(RedisCountDownLatch::wait_until_zero, (&l, &wait, start), w),
        call_ensures(LatchWait::after, (&w, remaining, now), r),
    ensures
        r matches PollStep::Done(Ok(_)) <==> remaining == Ok::<u64, Error>(0),
        remaining matches Err(e) ==> r == PollStep::Done(Err::<(), Error>(e)),
        remaining matches Ok(n) ==> n > 0 ==> (if now >= start + wait@ {
            r matches PollStep::Done(Err(e)) && e@ == (ErrorV::Timeout { key: l.key@ })
        } else {
            r matches PollStep::Sleep(s) && s@ == 20_000_000
        }),
{
}

/// A wait for a mutex is cut at its deadline, waits for the other locks are not;
/// all of them end when the time is up.
pub proof fn waits_end_when_the_time_is_up(
    m: RedisLockManager,
    key: &str,
    wait: Span,
    start: u128,
    w: Waiting,
    v: Waiting,
    attempt: Result<PendingLock, Error>,
    now: u128,
    r: PollStep<PendingLock>,
    s: PollStep<PendingLock>,
)
    requires
        start + wait@ <= u128::MAX,
        call_ensures(RedisLockManager::try_lock_for, (&m, key, &wait, start), w),
        call_ensures(RedisLockManager::try_lock_reentrant_for, (&m, key, &wait, start), v),
        call_ensures(Waiting::after::<PendingLock>, (&w, attempt, now), r),
        call_ensures(Waiting::after::<PendingLock>, (&v, attempt, now), s),
    ensures
        !(attempt matches Err(e) && e@ is Held) ==> r == PollStep::Done(attempt) && s
            == PollStep::Done(attempt),
        (attempt matches Err(e) && e@ is Held) && now >= start + wait@ ==> (r
            matches PollStep::Done(Err(e)) && e@ == (ErrorV::Timeout { key: key@ })) && (s
            matches PollStep::Done(Err(e)) && e@ == (ErrorV::Timeout { key: key@ })),
        (attempt matches Err(e) && e@ is Held) && now < start + wait@ ==> (r
            matches PollStep::Sleep(nap) && nap@ == (if start + wait@ - now < 20_000_000 {
            start + wait@ - now
        } else {
            20_000_000
        })) && (s matches PollStep::Sleep(nap) && nap@ == 20_000_000),
{
}

} // verus!
