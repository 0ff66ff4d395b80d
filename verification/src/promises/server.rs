//! The server: who is let in, what is counted, and how requests end.

use vstd::prelude::*;

use crate::auth::{in_scope, principals_by_token, Acl, Permission, Principal, PrincipalConfig,
    PrincipalConfigV, WatcherGuard};
use crate::command::{ArgV, Command, Invocation};
use crate::error::Error;
use crate::options::{LockOptions, SafetyPolicy};
use crate::promises::locks::{fits, parts};
use crate::registry::HeldRegistry;
use crate::scan::Scan;
use crate::service::{options_from_pb, Admission, ForcedUnlock, GrantEnd, GrantOutcome,
    LockOptionsPb, OwnedOutcome, PalisadeService, RenewRequest, ServiceConfig, SessionOpened,
    TryLockForRequest, TryLockRequest, UnlockRequest};
use crate::sessions::{count_released, evictions, farewells, freed, Eviction, HbResult, SessionBook};
use crate::single::{fence_key, DescribeCalls, Farewell, PendingLock, RedisLockHandle};
use crate::span::Span;
use crate::status::{AuditLine, Code, Status};
use crate::watch_hub::{LockEvent, PollerStep, Subscribed, WatchHub};

verus! {

/// The key begins with one of the principal's prefixes.
pub open spec fn under_a_prefix(p: Principal, key: Seq<char>) -> bool {
    exists|i: int| 0 <= i < p.cfg.key_prefixes@.len() && #[trigger] prefixed(p, i, key)
}

/// The key begins with the prefix at `i`.
pub open spec fn prefixed(p: Principal, i: int, key: Seq<char>) -> bool {
    p.cfg.key_prefixes@[i]@.is_prefix_of(key)
}

/// The principal was granted the permission.
pub open spec fn has(p: Principal, permission: Permission) -> bool {
    ||| permission == Permission::Lock && p.cfg.can_lock
    ||| permission == Permission::Unlock && p.cfg.can_unlock
    ||| permission == Permission::Extend && p.cfg.can_extend
    ||| permission == Permission::Watch && p.cfg.can_watch
    ||| permission == Permission::Admin && p.cfg.can_admin
}

pub proof fn lemma_scope(p: Principal, key: Seq<char>)
    ensures
        in_scope(p@.cfg, key) <==> under_a_prefix(p, key),
{
    let ps = p@.cfg.key_prefixes;
    assert(ps.len() == p.cfg.key_prefixes@.len());
    if in_scope(p@.cfg, key) {
        let i = choose|i: int| 0 <= i < ps.len() && (#[trigger] ps[i]).is_prefix_of(key);
        assert(prefixed(p, i, key));
    }
    if under_a_prefix(p, key) {
        let i = choose|i: int|
            0 <= i < p.cfg.key_prefixes@.len() && #[trigger] prefixed(p, i, key);
        assert(ps[i].is_prefix_of(key));
    }
}

/// Every configured prefix counts: a principal may do what it was granted on
/// every key that begins with any of its prefixes, and nothing on other keys.
pub proof fn every_prefix_counts(
    p: Principal,
    key: &str,
    permission: Permission,
    r: Result<(), Status>,
)
    requires
        call_ensures(Principal::may, (&p, key, permission), r),
    ensures
        r is Ok <==> under_a_prefix(p, key@) && has(p, permission),
        r matches Err(s) ==> s.code == Code::PermissionDenied && s.message@ == (if under_a_prefix(
            p,
            key@,
        ) {
            "principal `"@ + p.cfg.name@ + "` lacks permission for `"@ + key@ + "`"@
        } else {
            "principal `"@ + p.cfg.name@ + "` may not touch keys outside its prefixes (`"@ + key@
                + "`)"@
        }) && (s.audit matches Some(line) && line.principal@ == p.cfg.name@ && line.key@ == key@
            && line.outcome@ == "denied"@),
{
    lemma_scope(p, key@);
}

/// Each check asks for its own permission.
pub proof fn checks_ask_for_their_permission(
    p: Principal,
    key: &str,
    unlock: Result<(), Status>,
    extend: Result<(), Status>,
    admin: Result<(), Status>,
)
    requires
        call_ensures(Principal::check_unlock, (&p, key), unlock),
        call_ensures(Principal::check_extend, (&p, key), extend),
        call_ensures(Principal::check_admin, (&p, key), admin),
    ensures
        unlock is Ok <==> under_a_prefix(p, key@) && p.cfg.can_unlock,
        extend is Ok <==> under_a_prefix(p, key@) && p.cfg.can_extend,
        admin is Ok <==> under_a_prefix(p, key@) && p.cfg.can_admin,
        unlock matches Err(s) ==> s.code == Code::PermissionDenied && s.audit is Some
            && s.audit->0.action@ == "unlock"@,
        extend matches Err(s) ==> s.code == Code::PermissionDenied && s.audit is Some
            && s.audit->0.action@ == "extend"@,
        admin matches Err(s) ==> s.code == Code::PermissionDenied && s.audit is Some
            && s.audit->0.action@ == "admin"@,
{
    lemma_scope(p, key@);
}

/// A principal may lock while it holds fewer keys than its ceiling; a ceiling of
/// zero is none.
pub proof fn locks_stop_at_the_ceiling(p: Principal, key: &str, r: Result<(), Status>)
    requires
        call_ensures(Principal::check_lock, (&p, key), r),
    ensures
        r is Ok <==> under_a_prefix(p, key@) && p.cfg.can_lock && (p.cfg.max_keys == 0
            || p.held_keys < p.cfg.max_keys),
        r matches Err(s) ==> (s.code == Code::ResourceExhausted <==> under_a_prefix(p, key@)
            && p.cfg.can_lock) && (s.code == Code::ResourceExhausted || s.code
            == Code::PermissionDenied) && s.audit is Some && s.audit->0.action@ == "lock"@,
{
    lemma_scope(p, key@);
}

/// A watcher takes one slot, while the principal has fewer watchers than its
/// ceiling; a refused watcher takes none, and a slot that is freed is free.
pub proof fn watchers_stop_at_the_ceiling(p: &mut Principal, key: &str, r: Result<(), Status>)
    requires
        call_ensures(Principal::check_watch, (p, key), r),
    ensures
        r is Ok <==> under_a_prefix(*old(p), key@) && old(p).cfg.can_watch && (
        old(p).cfg.max_watchers == 0 || old(p).watchers < old(p).cfg.max_watchers),
        r is Ok && old(p).watchers < usize::MAX ==> final(p).watchers == old(p).watchers + 1,
        r is Err ==> final(p).watchers == old(p).watchers,
        final(p).held_keys == old(p).held_keys,
        final(p)@.cfg == old(p)@.cfg,
        r matches Err(s) ==> (s.code == Code::ResourceExhausted <==> under_a_prefix(*old(p), key@)
            && old(p).cfg.can_watch) && s.audit is Some && s.audit->0.action@ == "watch"@,
{
    lemma_scope(*old(p), key@);
    assert(final(p)@.watchers == final(p).watchers);
    assert(final(p)@.held_keys == final(p).held_keys);
}

/// A freed watcher slot is one watcher fewer.
pub proof fn freed_slots_are_free(p: &mut Principal)
    requires
        old(p).watchers > 0,
        call_ensures(Principal::note_watcher_denial, (p,), ()),
    ensures
        final(p).watchers == old(p).watchers - 1,
        final(p).held_keys == old(p).held_keys,
        final(p)@.cfg == old(p)@.cfg,
{
    assert(final(p)@.watchers == final(p).watchers);
    assert(final(p)@.held_keys == final(p).held_keys);
}

/// In open mode every caller is anonymous and may do everything; otherwise a
/// caller is who its bearer token says, and nobody without a known one.
pub proof fn callers_are_who_their_token_says(
    acl: Acl,
    bearer: Option<&str>,
    r: Result<&Principal, Status>,
)
    requires
        call_ensures(Acl::resolve, (&acl, bearer), r),
    ensures
        acl@.open ==> (r matches Ok(p) && p.cfg.name@ == "anonymous"@ && p.cfg.can_lock
            && p.cfg.can_unlock && p.cfg.can_extend && p.cfg.can_watch && p.cfg.can_admin
            && p.cfg.max_keys == 0 && p.cfg.max_watchers == 0 && forall|key: Seq<char>|
            under_a_prefix(*p, key)),
        !acl@.open ==> {
            &&& r is Ok <==> exists|token: Seq<char>|
                bearer is Some && bearer->0@ == "Bearer "@ + token && #[trigger]
                acl@.by_token.dom().contains(token)
            &&& forall|token: Seq<char>|
                bearer is Some && bearer->0@ == "Bearer "@ + token && #[trigger]
                acl@.by_token.dom().contains(token) ==> r is Ok && r->Ok_0@ == acl@.by_token[token]
        },
        r matches Err(s) ==> s.code == Code::Unauthenticated && s.audit is None && s.message@ == (
        if bearer is Some && "Bearer "@.is_prefix_of(bearer->0@) {
            "unknown bearer token"@
        } else {
            "missing authorization: Bearer <token>"@
        }),
{
    if acl@.open {
        let p = *r->Ok_0;
        assert(p@.cfg.key_prefixes.len() == 1);
        assert(p@.cfg.key_prefixes[0] == p.cfg.key_prefixes@[0]@);
        assert(p@.cfg.key_prefixes[0].len() == 0);
        assert forall|key: Seq<char>| under_a_prefix(p, key) by {
            assert(p.cfg.key_prefixes@[0]@ =~= key.subrange(0, 0));
            assert(prefixed(p, 0, key));
        }
    } else if bearer is Some {
        let h = bearer->0@;
        let n = "Bearer "@.len() as int;
        assert forall|token: Seq<char>| h == "Bearer "@ + token implies token == h.skip(n)
            && "Bearer "@.is_prefix_of(h) by {
            assert(h.skip(n) =~= token);
            assert("Bearer "@ =~= h.subrange(0, n));
        }
        if "Bearer "@.is_prefix_of(h) {
            assert(h =~= "Bearer "@ + h.skip(n));
        }
    }
}

/// An access list is taken if every principal has a token, and then knows each
/// principal under its token, with nothing held or watched; of two with one
/// token the later counts.
pub proof fn access_lists_know_every_token(
    doc: Vec<PrincipalConfig>,
    r: Result<Acl, Error>,
)
    requires
        call_ensures(Acl::from_json, (Ok::<Vec<PrincipalConfig>, String>(doc),), r),
    ensures
        r is Ok <==> forall|i: int| 0 <= i < doc@.len() ==> (#[trigger] doc@[i]).token@.len() > 0,
        r matches Ok(acl) ==> !acl@.open && (forall|t: Seq<char>| #[trigger]
            acl@.by_token.dom().contains(t) <==> exists|i: int|
            0 <= i < doc@.len() && (#[trigger] doc@[i]).token@ == t),
        r matches Ok(acl) ==> forall|i: int|
            0 <= i < doc@.len() && (forall|j: int|
                i < j < doc@.len() ==> (#[trigger] doc@[j]).token@ != doc@[i].token@) ==> {
                let p = acl@.by_token[(#[trigger] doc@[i]).token@];
                p.cfg == doc@[i]@ && p.held_keys == 0 && p.watchers == 0
            },
        r matches Err(e) ==> e@ is InvalidConfig,
{
    let cfgs = doc@.map_values(|c: PrincipalConfig| c@);
    assert forall|i: int| 0 <= i < doc@.len() implies (#[trigger] cfgs[i]).token == doc@[i].token@ by {}
    if let Ok(acl) = r {
        lemma_by_token(cfgs);
        if exists|i: int| 0 <= i < doc@.len() && (#[trigger] doc@[i]).token@.len() == 0 {
            let i = choose|i: int| 0 <= i < doc@.len() && (#[trigger] doc@[i]).token@.len() == 0;
            assert(cfgs[i].token.len() == 0);
            lemma_first_empty(cfgs, 0);
        }
        assert forall|t: Seq<char>| #[trigger] acl@.by_token.dom().contains(t) <==> exists|i: int|
            0 <= i < doc@.len() && (#[trigger] doc@[i]).token@ == t by {
            if acl@.by_token.dom().contains(t) {
                let i = choose|i: int| 0 <= i < cfgs.len() && (#[trigger] cfgs[i]).token == t;
                assert(doc@[i].token@ == t);
            }
            if exists|i: int| 0 <= i < doc@.len() && (#[trigger] doc@[i]).token@ == t {
                let i = choose|i: int| 0 <= i < doc@.len() && (#[trigger] doc@[i]).token@ == t;
                assert(cfgs[i].token == t);
            }
        }
        assert forall|i: int|
            0 <= i < doc@.len() && (forall|j: int|
                i < j < doc@.len() ==> (#[trigger] doc@[j]).token@ != doc@[i].token@) implies ({
            let p = acl@.by_token[(#[trigger] doc@[i]).token@];
            p.cfg == doc@[i]@ && p.held_keys == 0 && p.watchers == 0
        }) by {
            assert forall|j: int| i < j < cfgs.len() implies (#[trigger] cfgs[j]).token
                != cfgs[i].token by {
                assert(doc@[j].token@ != doc@[i].token@);
            }
            assert(cfgs[i] == doc@[i]@);
        }
    }
}

proof fn lemma_first_empty(cfgs: Seq<PrincipalConfigV>, from: int)
    requires
        0 <= from,
        forall|j: int| 0 <= j < from && j < cfgs.len() ==> (#[trigger] cfgs[j]).token.len() > 0,
        exists|i: int| 0 <= i < cfgs.len() && (#[trigger] cfgs[i]).token.len() == 0,
    ensures
        exists|i: int| crate::auth::first_without_token(cfgs, i),
    decreases cfgs.len() - from,
{
    let i = choose|i: int| 0 <= i < cfgs.len() && (#[trigger] cfgs[i]).token.len() == 0;
    assert(from < cfgs.len());
    if cfgs[from].token.len() == 0 {
        assert(crate::auth::first_without_token(cfgs, from));
    } else {
        lemma_first_empty(cfgs, from + 1);
    }
}

proof fn lemma_by_token(cfgs: Seq<PrincipalConfigV>)
    ensures
        forall|t: Seq<char>| #[trigger]
            principals_by_token(cfgs).dom().contains(t) <==> exists|i: int|
                0 <= i < cfgs.len() && (#[trigger] cfgs[i]).token == t,
        forall|i: int|
            0 <= i < cfgs.len() && (forall|j: int|
                i < j < cfgs.len() ==> (#[trigger] cfgs[j]).token != cfgs[i].token) ==> {
                let p = principals_by_token(cfgs)[(#[trigger] cfgs[i]).token];
                p.cfg == cfgs[i] && p.held_keys == 0 && p.watchers == 0
            },
    decreases cfgs.len(),
{
    if cfgs.len() > 0 {
        let n = cfgs.len() - 1;
        let front = cfgs.drop_last();
        lemma_by_token(front);
        assert forall|t: Seq<char>| #[trigger]
            principals_by_token(cfgs).dom().contains(t) <==> exists|i: int|
                0 <= i < cfgs.len() && (#[trigger] cfgs[i]).token == t by {
            if exists|i: int| 0 <= i < cfgs.len() && (#[trigger] cfgs[i]).token == t {
                let i = choose|i: int| 0 <= i < cfgs.len() && (#[trigger] cfgs[i]).token == t;
                if i < n {
                    assert(front[i].token == t);
                }
            }
            if principals_by_token(front).dom().contains(t) {
                let i = choose|i: int| 0 <= i < front.len() && (#[trigger] front[i]).token == t;
                assert(cfgs[i].token == t);
            }
            if t == cfgs[n].token {
                assert(cfgs[n].token == t);
            }
        }
        assert forall|i: int|
            0 <= i < cfgs.len() && (forall|j: int|
                i < j < cfgs.len() ==> (#[trigger] cfgs[j]).token != cfgs[i].token) implies ({
            let p = principals_by_token(cfgs)[(#[trigger] cfgs[i]).token];
            p.cfg == cfgs[i] && p.held_keys == 0 && p.watchers == 0
        }) by {
            if i < n {
                assert(front[i] == cfgs[i]);
                assert forall|j: int| i < j < front.len() implies (#[trigger] front[j]).token
                    != front[i].token by {
                    assert(cfgs[j].token != cfgs[i].token);
                }
                assert(cfgs[n].token != cfgs[i].token);
            }
        }
    }
}

/// A watcher that is let in takes a slot of its principal and of no other, and
/// hands back exactly that slot.
pub proof fn watch_slots_are_taken_and_handed_back(
    acl: &mut Acl,
    bearer: Option<&str>,
    key: &str,
    r: Result<WatcherGuard, Status>,
    later: &mut Acl,
)
    requires
        call_ensures(Acl::check_watch, (acl, bearer, key), r),
        old(later)@ == final(acl)@,
        r matches Ok(g) ==> call_ensures(Acl::end_watch, (later, g), ()),
    ensures
        r is Ok ==> final(later)@.open == old(acl)@.open && final(later)@.by_token
            =~= old(acl)@.by_token,
        r is Err ==> final(acl)@ == old(acl)@,
        r is Ok && !old(acl)@.open ==> exists|t: Seq<char>|
            bearer is Some && bearer->0@ == "Bearer "@ + t && #[trigger]
            old(acl)@.by_token.dom().contains(t) && final(acl)@.by_token.dom()
                == old(acl)@.by_token.dom() && forall|u: Seq<char>|
                u != t && old(acl)@.by_token.dom().contains(u) ==> #[trigger]
                final(acl)@.by_token[u] == old(acl)@.by_token[u],
{
    if r is Ok && !old(acl)@.open {
        let h = bearer->0@;
        let n = "Bearer "@.len() as int;
        let t = h.skip(n);
        assert(h =~= "Bearer "@ + t);
        assert(old(acl)@.by_token.dom().contains(t));
        assert(final(acl)@.by_token.dom() =~= old(acl)@.by_token.dom());
    }
}

/// A request gets the lease that it asks for, or the server's default where it
/// asks for none, and is refused above the maximum.
pub proof fn requests_get_the_lease_they_ask_for(
    pb: Option<LockOptionsPb>,
    config: ServiceConfig,
    r: Result<LockOptions, Status>,
)
    requires
        call_ensures(options_from_pb, (pb, &config), r),
    ensures
        ({
            let asked = if pb is Some && pb->0.ttl_ms > 0 {
                pb->0.ttl_ms * 1_000_000
            } else {
                config.default_ttl@ as int
            };
            &&& r is Ok <==> asked <= config.max_ttl@
            &&& r matches Ok(o) ==> o.ttl is Some && o.ttl->0@ == asked && o.watchdog == (if pb
                is Some {
                pb->0.watchdog
            } else {
                None
            }) && o.safety_policy == SafetyPolicy::Balanced
            &&& r matches Err(s) ==> s.code == Code::InvalidArgument && s.audit is None
        }),
{
}

/// A request for a lock is let in if the server is ready, the caller is known,
/// the lease is within the maximum and the caller may lock the key, and it is
/// refused at the first of these that fails.
pub proof fn requests_are_let_in_by_every_rule(
    s: PalisadeService,
    bearer: Option<&str>,
    key: &str,
    pb: Option<LockOptionsPb>,
    session: &str,
    caller: Result<&Principal, Status>,
    may: Result<(), Status>,
    options: Result<LockOptions, Status>,
    r: Result<Admission, Status>,
)
    requires
        call_ensures(Acl::resolve, (&s.acl, bearer), caller),
        caller matches Ok(p) ==> call_ensures(Principal::check_lock, (p, key), may),
        call_ensures(options_from_pb, (pb, &s.config), options),
        call_ensures(PalisadeService::let_in, (&s, bearer, key, pb, session), r),
    ensures
        r is Ok <==> s.ready && caller is Ok && options is Ok && may is Ok,
        r matches Ok(a) ==> a.key@ == key@ && a.session@ == session@ && a.principal@
            == caller->Ok_0.cfg.name@ && a.max_keys == caller->Ok_0.cfg.max_keys && a.options.ttl
            is Some && a.options.ttl->0@ == options->Ok_0.ttl->0@ && a.options.watchdog
            == options->Ok_0.watchdog && a.options.safety_policy == options->Ok_0.safety_policy,
        r matches Err(e) ==> (if !s.ready {
            e.code == Code::Unavailable && e.message@ == "server is draining"@
        } else if caller is Err {
            e@ == caller->Err_0@
        } else if options is Err {
            e@ == options->Err_0@
        } else {
            e@ == may->Err_0@
        }),
{
}

/// An attempt for a request that was let in asks for its key, under its lease.
pub proof fn attempts_are_for_what_was_let_in(
    s: PalisadeService,
    a: Admission,
    r: Result<PendingLock, Status>,
)
    requires
        a.options.ttl is Some,
        fits(a.options.ttl->0),
        call_ensures(PalisadeService::attempt, (&s, &a), r),
    ensures
        r is Ok <==> a.options.ttl->0@ >= 10_000_000,
        r matches Ok(p) ==> p.key@ == a.key@ && p.ttl == a.options.ttl->0 && p.watchdog == (
        if a.options.watchdog is Some {
            a.options.watchdog->0
        } else {
            s.manager.watchdog_default
        }),
        r matches Err(e) ==> e.code == Code::Internal,
{
}

/// A request that waits is let in by the same rules as one that does not, asks
/// for the same, and waits as long as it says.
pub proof fn waiting_requests_are_let_in_alike(
    s: PalisadeService,
    bearer: Option<&str>,
    now: TryLockRequest,
    later: TryLockForRequest,
    r: Result<(Admission, PendingLock), Status>,
    w: Result<(Admission, Span), Status>,
)
    requires
        now.key@ == later.key@,
        now.options == later.options,
        now.session@ == later.session@,
        crate::service::lease_fits(now.options, s.config),
        call_ensures(PalisadeService::try_lock, (&s, bearer, &now), r),
        call_ensures(PalisadeService::try_lock_for, (&s, bearer, &later), w),
    ensures
        r is Ok ==> w is Ok,
        w is Err ==> r is Err && r->Err_0@ == w->Err_0@,
        w matches Ok((a, wait)) ==> wait@ == later.wait_ms * 1_000_000 && a.key@ == later.key@
            && a.session@ == later.session@ && (r is Ok <==> a.options.ttl->0@ >= 10_000_000),
        r matches Ok((a, p)) ==> a.key@ == now.key@ && p.key@ == now.key@ && p.ttl@
            == a.options.ttl->0@ && (w matches Ok((b, _)) && b.options.ttl->0@ == p.ttl@),
{
}

/// A grant reaches the client as it was made, with its session, its slot and
/// its lease; a grant that cannot be kept is undone and answered with why.
pub proof fn grants_reach_the_client(
    s: &mut PalisadeService,
    a: Admission,
    h: RedisLockHandle,
    now: u128,
    r: GrantEnd,
)
    requires
        !h.released,
        a.options.ttl is Some,
        fits(a.options.ttl->0),
        call_ensures(
            PalisadeService::try_locked,
            (s, &a, Ok::<RedisLockHandle, Error>(h), now),
            r,
        ),
    ensures
        r.answer is Ok <==> r.undo is None,
        r.undo matches Some(f) ==> parts(f, h.key@, h.owner.token_text()),
        a.session@.len() > 0 && !old(s).sessions@.dom().contains(a.session@) ==> (r.answer
            matches Err(e) && e.code == Code::NotFound),
        r.answer is Err && (a.session@.len() == 0 || old(s).sessions@.dom().contains(a.session@))
            ==> r.answer->Err_0.code == Code::ResourceExhausted && a.max_keys > 0
            && !old(s).registry@.dom().contains(a.key@),
        r.answer matches Ok(o) ==> (o matches GrantOutcome::Granted {
            token,
            fencing_token,
            ttl_ms,
        } && token@ == h.owner.token_text() && fencing_token == h.fence@ && ttl_ms
            == a.options.ttl->0@ / 1_000_000) && final(s).registry@.dom().contains(a.key@) && (
        old(s).registry@.dom().contains(a.key@) || final(s).registry@[a.key@] == a.principal@),
        r.answer is Ok && a.session@.len() > 0 ==> final(s).sessions@[a.session@].locks
            == old(s).sessions@[a.session@].locks.push((a.key@, h.owner.token_text()))
            && final(s).sessions@[a.session@].last_seen == now,
        r.answer is Ok && a.session@.len() == 0 ==> final(s).sessions@ == old(s).sessions@,
        final(s).config == old(s).config && final(s).manager == old(s).manager && final(s).ready
            == old(s).ready && final(s).acl == old(s).acl && final(s).hub == old(s).hub,
{
}

/// A key that is held elsewhere, and a wait that ran out, are answers; other
/// failures are errors. None of them changes anything.
pub proof fn denied_grants_are_answered(
    s: &mut PalisadeService,
    t: &mut PalisadeService,
    a: Admission,
    e: Error,
    now: u128,
    r: GrantEnd,
    w: GrantEnd,
)
    requires
        call_ensures(
            PalisadeService::try_locked,
            (s, &a, Err::<RedisLockHandle, Error>(e), now),
            r,
        ),
        call_ensures(
            PalisadeService::try_locked_for,
            (t, &a, Err::<RedisLockHandle, Error>(e), now),
            w,
        ),
    ensures
        *final(s) == *old(s) && *final(t) == *old(t),
        r.undo is None && w.undo is None,
        e@ is Held ==> (r.answer matches Ok(GrantOutcome::Held { key }) && key@ == a.key@) && (
        w.answer matches Ok(GrantOutcome::Held { key }) && key@ == a.key@),
        e@ is Timeout ==> (w.answer matches Ok(GrantOutcome::TimedOut { key }) && key@ == a.key@)
            && (r.answer matches Err(x) && x.code == Code::Internal),
        !(e@ is Held) && !(e@ is Timeout) ==> (r.answer matches Err(x) && x.code == Code::Internal)
            && (w.answer matches Err(x) && x.code == Code::Internal),
{
}

/// Unlocking asks for the permission to unlock, deletes the will and frees the
/// key under the client's token, and frees the slot once the store freed the
/// key.
pub proof fn unlocks_free_the_slot(
    s: &mut PalisadeService,
    bearer: Option<&str>,
    req: UnlockRequest,
    key: &str,
    caller: Result<&Principal, Status>,
    may: Result<(), Status>,
    r: Result<Farewell, Status>,
    reply: Result<i64, String>,
    done: Result<OwnedOutcome, Status>,
)
    requires
        call_ensures(Acl::resolve, (&s.acl, bearer), caller),
        key@ == req.key@,
        caller matches Ok(p) ==> call_ensures(Principal::check_unlock, (p, key), may),
        call_ensures(PalisadeService::unlock, (&*s, bearer, &req), r),
        call_ensures(PalisadeService::unlocked, (s, &req, reply), done),
    ensures
        r is Ok <==> caller is Ok && may is Ok,
        r matches Ok(f) ==> parts(f, req.key@, req.token@),
        final(s).registry@ == (if reply == Ok::<i64, String>(1) {
            old(s).registry@.remove(req.key@)
        } else {
            old(s).registry@
        }),
        done == Ok::<OwnedOutcome, Status>(OwnedOutcome::Done) <==> reply == Ok::<i64, String>(1),
        reply is Err <==> done is Err,
        final(s).sessions == old(s).sessions && final(s).acl == old(s).acl && final(s).hub
            == old(s).hub && final(s).config == old(s).config && final(s).ready == old(s).ready,
{
}

/// Renewing asks for the permission to extend, within the maximum and above the
/// floor, for the lease that is asked for.
pub proof fn renewals_stay_within_the_maximum(
    s: PalisadeService,
    bearer: Option<&str>,
    req: RenewRequest,
    key: &str,
    caller: Result<&Principal, Status>,
    may: Result<(), Status>,
    r: Result<Invocation, Status>,
    reply: Result<i64, String>,
    done: Result<OwnedOutcome, Status>,
)
    requires
        key@ == req.key@,
        req.ttl_ms <= 1_000_000_000_000_000_000,
        call_ensures(Acl::resolve, (&s.acl, bearer), caller),
        caller matches Ok(p) ==> call_ensures(Principal::check_extend, (p, key), may),
        call_ensures(PalisadeService::extend, (&s, bearer, &req), r),
        call_ensures(PalisadeService::extended, (&s, reply), done),
    ensures
        r is Ok <==> caller is Ok && may is Ok && 10 <= req.ttl_ms && req.ttl_ms * 1_000_000
            <= s.config.max_ttl@,
        r matches Ok(i) ==> i@.program == crate::command::ProgramV::Known(
            crate::command::Script::Extend,
        ) && i@.keys =~= seq![req.key@, fence_key(req.key@)] && i@.args =~= seq![
            ArgV::Text(req.token@),
            ArgV::Int(req.ttl_ms),
            ArgV::Int((req.ttl_ms * 10) as u64),
        ],
        caller is Ok && may is Ok && req.ttl_ms * 1_000_000 > s.config.max_ttl@ ==> (r
            matches Err(e) && e.code == Code::InvalidArgument),
        done == Ok::<OwnedOutcome, Status>(OwnedOutcome::Done) <==> reply == Ok::<i64, String>(1),
        reply is Err <==> done is Err,
{
}

/// A session gets the lease that its client asks for, up to the maximum; only a
/// client that asks for none gets ten seconds.
pub proof fn sessions_get_the_lease_they_ask_for(
    s: &mut PalisadeService,
    client_id: String,
    ttl_ms: u64,
    now: u128,
    r: SessionOpened,
)
    requires
        call_ensures(PalisadeService::register_session, (s, client_id, ttl_ms, now), r),
    ensures
        final(s).sessions@.dom().contains(r.session_token@),
        ({
            let opened = final(s).sessions@[r.session_token@];
            &&& opened.client_id == client_id@ && opened.last_seen == now && opened.locks.len() == 0
            &&& ttl_ms == 0 ==> opened.ttl == 10_000_000_000 && r.ttl_ms == 10_000
            &&& 0 < ttl_ms && ttl_ms * 1_000_000 <= old(s).config.max_ttl@ ==> opened.ttl == ttl_ms
                * 1_000_000 && r.ttl_ms == ttl_ms
            &&& ttl_ms * 1_000_000 > old(s).config.max_ttl@ ==> opened.ttl
                == old(s).config.max_ttl@
        }),
        forall|t: Seq<char>|
            t != r.session_token@ ==> (#[trigger] final(s).sessions@.dom().contains(t)
                <==> old(s).sessions@.dom().contains(t)) && (old(s).sessions@.dom().contains(t)
                ==> final(s).sessions@[t] == old(s).sessions@[t]),
        final(s).registry == old(s).registry && final(s).acl == old(s).acl && final(s).hub
            == old(s).hub && final(s).config == old(s).config && final(s).ready == old(s).ready,
{
    assert(10_000_000_000nat / 1_000_000 == 10_000);
    assert((ttl_ms * 1_000_000) / 1_000_000 == ttl_ms);
}

/// A heartbeat is answered by how long its session was silent: a known session
/// is kept alive unless it beats more often than twenty times per lease.
pub proof fn heartbeats_keep_sessions_alive(
    book: &mut SessionBook,
    token: &str,
    now: u128,
    r: HbResult,
)
    requires
        call_ensures(SessionBook::heartbeat, (book, token, now), r),
        old(book)@.dom().contains(token@) ==> old(book)@[token@].last_seen <= now,
    ensures
        r == HbResult::Unknown <==> !old(book)@.dom().contains(token@),
        r == HbResult::RateLimited <==> old(book)@.dom().contains(token@) && 20 * (now
            - old(book)@[token@].last_seen + 1) <= old(book)@[token@].ttl,
        r == HbResult::Accepted || r == HbResult::RateLimited || r == HbResult::Unknown,
        final(book)@.dom() =~= old(book)@.dom(),
        forall|t: Seq<char>|
            old(book)@.dom().contains(t) ==> {
                let was = old(book)@[t];
                let is = #[trigger] final(book)@[t];
                is.client_id == was.client_id && is.ttl == was.ttl && is.locks == was.locks
                    && is.last_seen == (if t == token@ && r == HbResult::Accepted {
                    now
                } else {
                    was.last_seen
                })
            },
{
    if old(book)@.dom().contains(token@) {
        let s = old(book)@[token@];
        let silent = now - s.last_seen;
        assert(silent < s.ttl / 20 <==> 20 * (silent + 1) <= s.ttl);
    }
}

/// The service answers a heartbeat as the book does.
pub proof fn heartbeats_are_answered_by_the_book(
    s: &mut PalisadeService,
    book: &mut SessionBook,
    token: &str,
    now: u128,
    hb: HbResult,
    r: Result<(), Status>,
)
    requires
        old(book)@ == old(s).sessions@,
        call_ensures(SessionBook::heartbeat, (book, token, now), hb),
        call_ensures(PalisadeService::heartbeat, (s, token, now), r),
    ensures
        r is Ok <==> hb == HbResult::Accepted,
        hb == HbResult::RateLimited ==> (r matches Err(e) && e.code == Code::ResourceExhausted),
        hb == HbResult::Unknown ==> (r matches Err(e) && e.code == Code::NotFound),
        final(s).sessions@ == final(book)@,
{
}

/// A lock that is bound to a session is the last of its locks, and binding
/// counts as a sign of life; nothing is bound to an unknown session.
pub proof fn bound_locks_are_recorded(
    book: &mut SessionBook,
    token: &str,
    key: &str,
    lock_token: &str,
    now: u128,
    r: bool,
)
    requires
        call_ensures(SessionBook::bind, (book, token, key, lock_token, now), r),
    ensures
        r <==> old(book)@.dom().contains(token@),
        final(book)@.dom() =~= old(book)@.dom(),
        forall|t: Seq<char>|
            old(book)@.dom().contains(t) && t != token@ ==> #[trigger] final(book)@[t]
                == old(book)@[t],
        r ==> final(book)@[token@].locks =~= old(book)@[token@].locks + seq![(key@, lock_token@)]
            && final(book)@[token@].last_seen == now && final(book)@[token@].ttl
            == old(book)@[token@].ttl && final(book)@[token@].client_id
            == old(book)@[token@].client_id,
{
}

/// A closed session is gone and hands out its locks in order; the others stay.
pub proof fn closed_sessions_hand_out_their_locks(
    book: &mut SessionBook,
    token: &str,
    r: Vec<(String, String)>,
)
    requires
        call_ensures(SessionBook::close, (book, token), r),
    ensures
        !final(book)@.dom().contains(token@),
        forall|t: Seq<char>|
            t != token@ ==> (#[trigger] final(book)@.dom().contains(t)
                <==> old(book)@.dom().contains(t)) && (old(book)@.dom().contains(t)
                ==> final(book)@[t] == old(book)@[t]),
        !old(book)@.dom().contains(token@) ==> r@.len() == 0,
        old(book)@.dom().contains(token@) ==> r@.len() == old(book)@[token@].locks.len()
            && forall|i: int|
            0 <= i < r@.len() ==> (#[trigger] r@[i]).0@ == old(book)@[token@].locks[i].0 && r@[i].1@
                == old(book)@[token@].locks[i].1,
{
    let b = crate::sessions::bound(r@);
    assert(b.len() == r@.len());
    assert forall|i: int| 0 <= i < r@.len() implies (#[trigger] r@[i]).0@ == b[i].0 && r@[i].1@
        == b[i].1 by {}
}

/// A sweep takes out exactly the sessions that were silent for longer than their
/// lease, each once, with all their locks.
pub proof fn sweeps_take_exactly_the_silent(
    book: &mut SessionBook,
    now: u128,
    out: Vec<Eviction>,
    t: Seq<char>,
)
    requires
        old(book)@.dom().contains(t),
        old(book)@[t].last_seen <= now,
        call_ensures(SessionBook::sweep_once, (book, now), out),
    ensures
        final(book)@.dom().contains(t) <==> now - old(book)@[t].last_seen <= old(book)@[t].ttl,
        final(book)@.dom().contains(t) ==> final(book)@[t] == old(book)@[t],
        !final(book)@.dom().contains(t) ==> exists|j: int|
            0 <= j < out@.len() && (#[trigger] out@[j]).token@ == t && out@[j].client_id@
                == old(book)@[t].client_id && out@[j].locks@.len() == old(book)@[t].locks.len(),
        forall|j: int, k: int|
            0 <= j < k < out@.len() ==> (#[trigger] out@[j]).token@ != (#[trigger] out@[k]).token@,
        forall|j: int|
            0 <= j < out@.len() ==> old(book)@.dom().contains((#[trigger] out@[j]).token@)
                && !final(book)@.dom().contains(out@[j].token@),
{
    if !final(book)@.dom().contains(t) {
        assert(crate::sessions::evicted(out@, t));
        let j = choose|j: int| 0 <= j < out@.len() && (#[trigger] out@[j]).token@ == t;
        assert(crate::sessions::evicts(old(book)@, now, out@[j]));
        assert(crate::sessions::bound(out@[j].locks@).len() == out@[j].locks@.len());
    }
    assert forall|j: int| 0 <= j < out@.len() implies old(book)@.dom().contains(
        (#[trigger] out@[j]).token@,
    ) && !final(book)@.dom().contains(out@[j].token@) by {
        assert(crate::sessions::evicts(old(book)@, now, out@[j]));
    }
}

/// A swept session hands out everything that was bound to it, in order.
pub proof fn swept_sessions_hand_out_their_locks(
    book: &mut SessionBook,
    now: u128,
    out: Vec<Eviction>,
    j: int,
    i: int,
)
    requires
        0 <= j < out@.len(),
        0 <= i < out@[j].locks@.len(),
        call_ensures(SessionBook::sweep_once, (book, now), out),
    ensures
        ({
            let s = old(book)@[out@[j].token@];
            &&& out@[j].client_id@ == s.client_id
            &&& out@[j].locks@.len() == s.locks.len()
            &&& out@[j].locks@[i].0@ == s.locks[i].0
            &&& out@[j].locks@[i].1@ == s.locks[i].1
        }),
{
    assert(crate::sessions::evicts(old(book)@, now, out@[j]));
    assert(crate::sessions::bound(out@[j].locks@)[i] == (
        out@[j].locks@[i].0@,
        out@[j].locks@[i].1@,
    ));
}

/// What a session's locks are released by: on closing, with their wills; when
/// swept, without, so that a successor still finds them.
pub proof fn bound_locks_are_released(
    locks: Vec<(String, String)>,
    f: Vec<Farewell>,
    e: Vec<Invocation>,
    i: int,
)
    requires
        0 <= i < locks@.len(),
        call_ensures(farewells, (&locks,), f),
        call_ensures(evictions, (&locks,), e),
    ensures
        f@.len() == locks@.len() && e@.len() == locks@.len(),
        parts(f@[i], locks@[i].0@, locks@[i].1@),
        e@[i]@.program == crate::command::ProgramV::Known(crate::command::Script::Release),
        e@[i]@.keys =~= seq![locks@[i].0@, fence_key(locks@[i].0@)],
        e@[i]@.args =~= seq![ArgV::Text(locks@[i].1@)],
{
    let b = crate::sessions::bound(locks@);
    assert(b.len() == locks@.len());
    assert(f@[i].bids(b[i].0, b[i].1));
    assert(e@[i]@ == crate::single::release_call(locks@[i].0@, locks@[i].1@));
}

/// Locks count as released where the store freed them, in whatever order.
pub proof fn freed_locks_are_counted(results: Vec<Result<bool, Error>>, r: u32)
    requires
        results@.len() <= u32::MAX,
        call_ensures(count_released, (&results,), r),
    ensures
        r == results@.to_multiset().count(Ok::<bool, Error>(true)),
{
    lemma_freed(results@);
}

/// What is counted as freed is every answer that the lock was.
pub proof fn lemma_freed(results: Seq<Result<bool, Error>>)
    ensures
        freed(results) == results.to_multiset().count(Ok::<bool, Error>(true)),
    decreases results.len(),
{
    broadcast use vstd::seq_lib::group_to_multiset_ensures;

    if results.len() > 0 {
        lemma_freed(results.drop_last());
        assert(results =~= results.drop_last().push(results.last()));
    } else {
        assert(results =~= Seq::<Result<bool, Error>>::empty());
    }
}

/// Describing asks for the permission to watch, and needs no slot.
pub proof fn descriptions_need_the_permission_to_watch(
    s: PalisadeService,
    bearer: Option<&str>,
    key: &str,
    caller: Result<&Principal, Status>,
    may: Result<(), Status>,
    r: Result<DescribeCalls, Status>,
)
    requires
        call_ensures(Acl::resolve, (&s.acl, bearer), caller),
        caller matches Ok(p) ==> call_ensures(Principal::may, (p, key, Permission::Watch), may),
        call_ensures(PalisadeService::describe_key, (&s, bearer, key), r),
    ensures
        r is Ok <==> caller is Ok && may is Ok,
        r matches Ok(d) ==> d.held@.name == "EXISTS"@ && d.held@.args =~= seq![ArgV::Text(key@)]
            && d.version@.name == "GET"@ && d.version@.args =~= seq![ArgV::Text(fence_key(key@))]
            && d.lease@.name == "PTTL"@ && d.lease@.args =~= seq![ArgV::Text(key@)],
        caller is Err ==> r is Err && r->Err_0@ == caller->Err_0@,
        caller is Ok && may is Err ==> r->Err_0@ == may->Err_0@,
{
}

/// A forced unlock needs an administrator, deletes the key, frees the slot of
/// whoever held it and tells of it; a listing needs one too.
pub proof fn administrators_force_and_list(
    s: &mut PalisadeService,
    bearer: Option<&str>,
    key: &str,
    caller: Result<&Principal, Status>,
    may: Result<(), Status>,
    force: Result<(String, Command), Status>,
    list: Result<(AuditLine, Scan), Status>,
    who: &str,
    n: i64,
    done: Result<ForcedUnlock, Status>,
)
    requires
        call_ensures(Acl::resolve, (&s.acl, bearer), caller),
        caller matches Ok(p) ==> call_ensures(Principal::check_admin, (p, key), may),
        call_ensures(PalisadeService::unlock_force, (&*s, bearer, key), force),
        call_ensures(PalisadeService::list_locks, (&*s, bearer, key), list),
        call_ensures(PalisadeService::force_unlocked, (s, who, key, Ok::<i64, String>(n)), done),
    ensures
        force is Ok <==> caller is Ok && may is Ok,
        list is Ok <==> caller is Ok && may is Ok,
        force matches Ok((name, c)) ==> name@ == caller->Ok_0.cfg.name@ && c@.name == "DEL"@
            && c@.args =~= seq![ArgV::Text(key@)],
        list matches Ok((line, scan)) ==> line.principal@ == caller->Ok_0.cfg.name@ && line.action@
            == "list-locks"@ && line.key@ == key@ && scan.prefix@ == key@ && scan.fresh,
        done is Ok,
        done->Ok_0.released == (n > 0),
        done->Ok_0.victim is Some <==> old(s).registry@.dom().contains(key@),
        done->Ok_0.victim matches Some(v) ==> v@ == old(s).registry@[key@],
        done->Ok_0.audit.principal@ == who@ && done->Ok_0.audit.key@ == key@
            && done->Ok_0.audit.action@ == "force-unlock"@ && done->Ok_0.audit.outcome@ == (if n > 0 {
            "released"@
        } else {
            "key-absent"@
        }),
        !final(s).registry@.dom().contains(key@),
        forall|k: Seq<char>|
            k != key@ ==> (#[trigger] final(s).registry@.dom().contains(k)
                <==> old(s).registry@.dom().contains(k)) && (old(s).registry@.dom().contains(k)
                ==> final(s).registry@[k] == old(s).registry@[k]),
{
}

/// A key is tracked under the principal that locked it first, while that holds
/// fewer keys than its ceiling; a key that is tracked already changes nothing.
pub proof fn keys_are_tracked_under_their_holder(
    reg: &mut HeldRegistry,
    key: &str,
    principal: &str,
    max_keys: u32,
    r: bool,
)
    requires
        call_ensures(HeldRegistry::try_acquire, (reg, key, principal, max_keys), r),
    ensures
        ({
            let held = old(reg)@.dom().filter(|k: Seq<char>| old(reg)@[k] == principal@).len();
            &&& r <==> old(reg)@.dom().contains(key@) || max_keys == 0 || held < max_keys
            &&& r ==> final(reg)@.dom().contains(key@)
            &&& r && !old(reg)@.dom().contains(key@) ==> final(reg)@[key@] == principal@
            &&& !r ==> final(reg)@ == old(reg)@
        }),
        forall|k: Seq<char>|
            old(reg)@.dom().contains(k) ==> final(reg)@.dom().contains(k) && #[trigger]
            final(reg)@[k] == old(reg)@[k],
        forall|k: Seq<char>|
            k != key@ && !old(reg)@.dom().contains(k) ==> !#[trigger] final(reg)@.dom().contains(k),
{
}

/// A released key is no longer tracked, and its holder is told.
pub proof fn released_keys_are_not_tracked(reg: &mut HeldRegistry, key: &str, r: Option<String>)
    requires
        call_ensures(HeldRegistry::release, (reg, key), r),
    ensures
        r is Some <==> old(reg)@.dom().contains(key@),
        r matches Some(p) ==> p@ == old(reg)@[key@],
        !final(reg)@.dom().contains(key@),
        forall|k: Seq<char>|
            k != key@ ==> (#[trigger] final(reg)@.dom().contains(k)
                <==> old(reg)@.dom().contains(k)) && (old(reg)@.dom().contains(k)
                ==> final(reg)@[k] == old(reg)@[k]),
{
}

/// The first listener of a key starts its poller and learns nothing yet; later
/// ones learn what is known. Each counts once, and a poller goes on while anyone
/// listens.
pub proof fn listeners_are_counted(
    hub: &mut WatchHub,
    key: &str,
    r: Subscribed,
    left: &mut WatchHub,
    polled: &mut WatchHub,
    step: PollerStep,
)
    requires
        old(hub)@.dom().contains(key@) ==> old(hub)@[key@].receivers < usize::MAX,
        call_ensures(WatchHub::subscribe, (hub, key), r),
        call_ensures(WatchHub::unsubscribe, (left, key), ()),
        call_ensures(WatchHub::poll, (polled, key), step),
    ensures
        r.start_poller <==> !old(hub)@.dom().contains(key@),
        r.current matches Some(e) ==> old(hub)@.dom().contains(key@) && (old(hub)@[key@].state
            matches Some((held, version)) && (held ==> e == LockEvent::Acquired { version }) && (
        !held ==> e == LockEvent::Freed { version })),
        r.current is None ==> r.start_poller || old(hub)@[key@].state is None,
        final(hub)@.dom().contains(key@),
        final(hub)@[key@].receivers == (if r.start_poller {
            1
        } else {
            old(hub)@[key@].receivers + 1
        }),
        final(hub)@[key@].state == (if r.start_poller {
            None
        } else {
            old(hub)@[key@].state
        }),
        old(left)@.dom().contains(key@) && old(left)@[key@].receivers > 0
            ==> final(left)@.dom().contains(key@) && final(left)@[key@].receivers
            == old(left)@[key@].receivers - 1 && final(left)@[key@].state
            == old(left)@[key@].state,
        !old(left)@.dom().contains(key@) || old(left)@[key@].receivers == 0 ==> final(left)@
            == old(left)@,
        step == PollerStep::Probe <==> old(polled)@.dom().contains(key@)
            && old(polled)@[key@].receivers > 0,
        final(polled)@.dom().contains(key@) <==> step == PollerStep::Probe,
        step == PollerStep::Probe ==> final(polled)@ == old(polled)@,
        forall|k: Seq<char>|
            k != key@ ==> (#[trigger] final(hub)@.dom().contains(k)
                <==> old(hub)@.dom().contains(k)) && (old(hub)@.dom().contains(k)
                ==> final(hub)@[k] == old(hub)@[k]),
        forall|k: Seq<char>|
            k != key@ ==> (#[trigger] final(polled)@.dom().contains(k)
                <==> old(polled)@.dom().contains(k)),
{
}

/// The version that was last seen, if one was.
pub open spec fn was_version(state: Option<(bool, u64)>) -> u64 {
    match state {
        Some((_, version)) => version,
        None => 0,
    }
}

/// A probe is told when it shows the key taken or freed since the last one, or
/// is the first, and then with the version that it saw; a failed probe tells
/// nothing.
pub proof fn probes_tell_the_changes(
    hub: &mut WatchHub,
    key: &str,
    seen: Result<(bool, u64), Error>,
    r: Option<LockEvent>,
)
    requires
        call_ensures(WatchHub::probed, (hub, key, seen), r),
    ensures
        seen is Err || !old(hub)@.dom().contains(key@) ==> r is None,
        match seen {
            Ok((held, version)) => old(hub)@.dom().contains(key@) ==> {
                let was = old(hub)@[key@].state;
                &&& r is Some <==> was != Some((true, was_version(was))) && held || was != Some(
                    (false, was_version(was)),
                ) && !held
                &&& r matches Some(e) ==> e == (if held {
                    LockEvent::Acquired { version }
                } else {
                    LockEvent::Freed { version }
                }) && final(hub)@[key@].state == Some((held, version))
            },
            Err(_) => true,
        },
        r is None && old(hub)@.dom().contains(key@) ==> final(hub)@[key@].state
            == old(hub)@[key@].state,
        final(hub)@.dom() =~= old(hub)@.dom(),
        forall|k: Seq<char>|
            old(hub)@.dom().contains(k) ==> (#[trigger] final(hub)@[k]).receivers
                == old(hub)@[k].receivers && (k != key@ ==> final(hub)@[k] == old(hub)@[k]),
{
}

} // verus!
