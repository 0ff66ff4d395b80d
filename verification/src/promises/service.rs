//! The service as a whole: readiness, watching, closing sessions, and listing.

use vstd::prelude::*;

use crate::auth::{Acl, Permission, Principal, PrincipalConfig, WatcherGuard};
use crate::command::Invocation;
use crate::error::Error;
use crate::options::check_floor;
use crate::owner::OwnerId;
use crate::promises::locks::parts;
use crate::promises::server::lemma_freed;
use crate::registry::HeldRegistry;
use crate::scan::Scan;
use crate::service::{Admission, KeyState, PalisadeService, RenewRequest, ServiceConfig,
    TryLockForRequest};
use crate::sessions::{SessionBook, SessionEntry};
use crate::single::{Farewell, RedisLockManager};
use crate::span::Span;
use crate::status::{AuditLine, Code, Status};
use crate::watch_hub::{transition_event, LockEvent, Subscribed, WatchHub};

verus! {

/// A new service is ready, lets everyone in, and knows nothing yet; its limits
/// are half a minute by default and ten minutes at most.
pub proof fn new_services_know_nothing(
    m: RedisLockManager,
    config: ServiceConfig,
    s: PalisadeService,
    acl: Acl,
    t: PalisadeService,
    limits: ServiceConfig,
    k: Seq<char>,
)
    requires
        call_ensures(PalisadeService::new, (m, config), s),
        call_ensures(PalisadeService::with_acl, (s, acl), t),
        call_ensures(ServiceConfig::default, (), limits),
    ensures
        s.ready && s.acl@.open && s.manager == m && s.config == config,
        !s.sessions@.dom().contains(k) && !s.hub@.dom().contains(k) && !s.registry@.dom().contains(
            k,
        ),
        t.acl == acl && t.ready == s.ready && t.sessions == s.sessions && t.manager == m
            && t.config == config && t.hub == s.hub && t.registry == s.registry,
        limits.default_ttl@ == 30_000_000_000 && limits.max_ttl@ == 600_000_000_000,
{
}

/// A service is ready where it was last set so, and says so where it is not.
pub proof fn services_are_as_ready_as_they_were_set(
    s: &mut PalisadeService,
    ready: bool,
    later: PalisadeService,
    r: Result<(), Status>,
    book: &SessionBook,
    m: &RedisLockManager,
)
    requires
        call_ensures(PalisadeService::set_ready, (s, ready), ()),
        later == *final(s),
        call_ensures(PalisadeService::check_ready, (&later,), r),
        call_ensures(PalisadeService::session_book, (&later,), book),
        call_ensures(PalisadeService::manager, (&later,), m),
    ensures
        r is Ok <==> ready,
        r matches Err(e) ==> e.code == Code::Unavailable && e@.message == "server is draining"@,
        later.sessions == old(s).sessions && later.acl == old(s).acl && later.hub == old(s).hub
            && later.registry == old(s).registry && later.config == old(s).config,
        *book == old(s).sessions && *m == old(s).manager,
{
}

/// A watch is let in as the access list says; it takes a slot and a place at
/// the hub. Refused, it changes nothing.
pub proof fn watches_are_let_in_by_the_access_list(
    s: &mut PalisadeService,
    acl: &mut Acl,
    hub: &mut WatchHub,
    bearer: Option<&str>,
    key: &str,
    guard: Result<WatcherGuard, Status>,
    place: Subscribed,
    r: Result<(WatcherGuard, Subscribed), Status>,
)
    requires
        old(s).hub@.dom().contains(key@) ==> old(s).hub@[key@].receivers < usize::MAX,
        old(acl)@ == old(s).acl@,
        old(hub)@ == old(s).hub@,
        call_ensures(Acl::check_watch, (acl, bearer, key), guard),
        call_ensures(WatchHub::subscribe, (hub, key), place),
        call_ensures(PalisadeService::watch, (s, bearer, key), r),
    ensures
        r is Ok <==> guard is Ok,
        r matches Err(e) ==> e@ == guard->Err_0@ && final(s).acl@ == old(s).acl@ && final(s).hub@
            == old(s).hub@,
        r is Ok ==> final(s).acl@.open == final(acl)@.open && final(s).acl@.by_token == final(
            acl)@.by_token && final(s).hub@ == final(hub)@,
        r matches Ok((g, p)) ==> p.start_poller == place.start_poller && p.current == place.current
            && (g.token is Some <==> guard->Ok_0.token is Some),
        final(s).sessions == old(s).sessions && final(s).registry == old(s).registry,
{
}

/// A watch that ends gives back its slot and its place.
pub proof fn ended_watches_give_back_what_they_took(
    s: &mut PalisadeService,
    acl: &mut Acl,
    hub: &mut WatchHub,
    guard: WatcherGuard,
    key: &str,
)
    requires
        old(acl)@ == old(s).acl@,
        old(hub)@ == old(s).hub@,
        call_ensures(Acl::end_watch, (acl, guard), ()),
        call_ensures(WatchHub::unsubscribe, (hub, key), ()),
        call_ensures(PalisadeService::watch_ended, (s, guard, key), ()),
    ensures
        final(s).acl@.by_token == final(acl)@.by_token && final(s).acl@.open == old(s).acl@.open,
        final(s).hub@ == final(hub)@,
        final(s).sessions == old(s).sessions && final(s).registry == old(s).registry,
{
}

/// A closed session is forgotten, and every lock bound to it is let go, in order.
pub proof fn closed_sessions_let_their_locks_go(
    s: &mut PalisadeService,
    token: &str,
    r: Vec<Farewell>,
    t: PalisadeService,
    results: Vec<Result<bool, Error>>,
    n: u32,
)
    requires
        call_ensures(PalisadeService::close_session, (s, token), r),
        results@.len() <= u32::MAX,
        call_ensures(PalisadeService::session_closed, (&t, &results), n),
    ensures
        !final(s).sessions@.dom().contains(token@),
        forall|k: Seq<char>|
            k != token@ && old(s).sessions@.dom().contains(k) ==> final(s).sessions@.dom().contains(
                k,
            ) && #[trigger] final(s).sessions@[k] == old(s).sessions@[k],
        !old(s).sessions@.dom().contains(token@) ==> r@.len() == 0,
        old(s).sessions@.dom().contains(token@) ==> r@.len()
            == old(s).sessions@[token@].locks.len() && forall|i: int|
            0 <= i < r@.len() ==> parts(
                #[trigger] r@[i],
                old(s).sessions@[token@].locks[i].0,
                old(s).sessions@[token@].locks[i].1,
            ),
        n == results@.to_multiset().count(Ok::<bool, Error>(true)),
{
    lemma_freed(results@);
    if old(s).sessions@.dom().contains(token@) {
        let locks = old(s).sessions@[token@].locks;
        assert forall|i: int| 0 <= i < r@.len() implies parts(
            #[trigger] r@[i],
            locks[i].0,
            locks[i].1,
        ) by {
            assert(r@[i].bids(locks[i].0, locks[i].1));
        }
    }
}

/// What was described or listed is told as it was found, and a failure is told
/// in its words.
pub proof fn findings_are_told_as_they_are(
    s: PalisadeService,
    told: Result<(bool, u64, u64), Error>,
    d: Result<(bool, u64, u64), Status>,
    found: Result<Vec<(String, u64)>, Error>,
    l: Result<Vec<KeyState>, Status>,
    e: Error,
    said: String,
)
    requires
        told is Err ==> e == told->Err_0,
        call_ensures(Error::message, (&e,), said),
        call_ensures(PalisadeService::described, (&s, told), d),
        call_ensures(PalisadeService::listed, (&s, found), l),
    ensures
        d is Ok <==> told is Ok,
        d matches Ok(x) ==> x == told->Ok_0,
        d matches Err(f) ==> f.code == Code::Internal && f@.message == said@,
        l is Ok <==> found is Ok,
        l matches Ok(states) ==> states@.len() == found->Ok_0@.len() && forall|i: int|
            0 <= i < states@.len() ==> (#[trigger] states@[i]).held && states@[i].key@
                == found->Ok_0@[i].0@ && states@[i].ttl_ms == found->Ok_0@[i].1,
        l matches Err(f) ==> f.code == Code::Internal,
{
}

/// A session that is registered is in the book, under the owner's token, and no
/// other changes; a new book is empty.
pub proof fn registered_sessions_are_in_the_book(
    book: &mut SessionBook,
    owner: OwnerId,
    client: String,
    ttl: Span,
    now: u128,
    r: String,
    fresh: SessionBook,
    k: Seq<char>,
    b: SessionBook,
    n: usize,
)
    requires
        call_ensures(SessionBook::register_as, (book, owner, client, ttl, now), r),
        call_ensures(SessionBook::new, (), fresh),
        call_ensures(SessionBook::len, (&b,), n),
    ensures
        r@ == owner.token_text(),
        final(book)@.dom().contains(r@),
        ({
            let s = final(book)@[r@];
            s.client_id == client@ && s.ttl == ttl@ && s.last_seen == now && s.locks.len() == 0
        }),
        k != r@ ==> (final(book)@.dom().contains(k) <==> old(book)@.dom().contains(k))
            && final(book)@[k] == old(book)@[k],
        !fresh@.dom().contains(k),
        n == b@.dom().len(),
{
}

/// A minted session is registered alike; a session has expired once it was silent
/// for longer than its lease.
pub proof fn silent_sessions_expire(
    book: &mut SessionBook,
    client: String,
    ttl: Span,
    now: u128,
    r: String,
    s: SessionEntry,
    then: u128,
    gone: bool,
)
    requires
        call_ensures(SessionBook::register, (book, client, ttl, now), r),
        call_ensures(SessionEntry::expired, (&s, then), gone),
    ensures
        final(book)@.dom().contains(r@),
        ({
            let e = final(book)@[r@];
            e.client_id == client@ && e.ttl == ttl@ && e.last_seen == now && e.locks.len() == 0
        }),
        then >= s@.last_seen ==> (gone <==> then - s@.last_seen > s@.ttl),
        then < s@.last_seen ==> !gone,
{
}

/// Permissions are called by their words in the audit trail, and its lines say
/// what they are given.
pub proof fn audit_lines_say_what_they_are_given(
    p: Permission,
    word: &'static str,
    who: &str,
    action: &str,
    key: &str,
    outcome: &str,
    line: AuditLine,
    denied: AuditLine,
    code: Code,
    s: Status,
)
    requires
        call_ensures(Permission::action, (p,), word),
        call_ensures(Acl::audit, (who, action, key, outcome), line),
        call_ensures(AuditLine::denied, (who, action, key), denied),
        call_ensures(Status::new, (code, key), s),
    ensures
        p is Lock ==> word@ == "lock"@,
        p is Unlock ==> word@ == "unlock"@,
        p is Extend ==> word@ == "extend"@,
        p is Watch ==> word@ == "watch"@,
        p is Admin ==> word@ == "admin"@,
        line.principal@ == who@ && line.action@ == action@ && line.key@ == key@ && line.outcome@
            == outcome@,
        denied.principal@ == who@ && denied.action@ == action@ && denied.key@ == key@
            && denied.outcome@ == "denied"@,
        s.code == code && s@.message == key@ && s.audit is None,
{
}

/// Principals start without keys and watchers, and tell their name and ceiling;
/// open access lists let everyone in.
pub proof fn principals_start_without_keys(
    cfg: PrincipalConfig,
    p: Principal,
    q: Principal,
    name: &str,
    most: u32,
    acl: Acl,
)
    requires
        call_ensures(Acl::make_principal, (cfg,), p),
        call_ensures(Principal::name, (&q,), name),
        call_ensures(Principal::max_keys, (&q,), most),
        call_ensures(Acl::open, (), acl),
    ensures
        p@.cfg == cfg@ && p@.held_keys == 0 && p@.watchers == 0,
        name@ == q.cfg.name@ && most == q.cfg.max_keys,
        acl@.open,
{
}

/// An access list is read from a file as it is read from its text.
pub proof fn access_lists_are_read_from_files(
    path: &str,
    parsed: Result<Vec<PrincipalConfig>, String>,
    a: Result<Acl, Error>,
    b: Result<Acl, Error>,
)
    requires
        call_ensures(
            Acl::load_file,
            (path, Ok::<Result<Vec<PrincipalConfig>, String>, String>(parsed)),
            a,
        ),
        call_ensures(Acl::from_json, (parsed,), b),
    ensures
        a is Ok <==> b is Ok,
        a matches Ok(x) ==> x@.open == b->Ok_0@.open && x@.by_token == b->Ok_0@.by_token,
        a matches Err(e) ==> e@ == b->Err_0@,
{
}

/// Taking a key is told as such, and so is its release; hubs and registries are
/// empty at first.
pub proof fn events_tell_who_is_in(
    held: bool,
    version: u64,
    e: LockEvent,
    hub: WatchHub,
    registry: HeldRegistry,
    k: Seq<char>,
)
    requires
        call_ensures(transition_event, (held, version), e),
        call_ensures(WatchHub::new, (), hub),
        call_ensures(HeldRegistry::new, (), registry),
    ensures
        held ==> e == (LockEvent::Acquired { version }),
        !held ==> e == (LockEvent::Freed { version }),
        !hub@.dom().contains(k) && !registry@.dom().contains(k),
{
}

/// A waiting request is admitted under the name and the ceiling of its caller,
/// and waits as long as it asks; a heartbeat touches nothing but the sessions.
pub proof fn waiting_requests_are_admitted_under_their_name(
    s: PalisadeService,
    bearer: Option<&str>,
    who: Result<&Principal, Status>,
    req: TryLockForRequest,
    r: Result<(Admission, Span), Status>,
    t: &mut PalisadeService,
    token: &str,
    now: u128,
    beat: Result<(), Status>,
)
    requires
        call_ensures(Acl::resolve, (&s.acl, bearer), who),
        call_ensures(PalisadeService::try_lock_for, (&s, bearer, &req), r),
        call_ensures(PalisadeService::heartbeat, (t, token, now), beat),
    ensures
        r is Ok ==> who is Ok,
        r matches Ok((a, wait)) ==> a.principal@ == who->Ok_0.cfg.name@ && a.max_keys
            == who->Ok_0.cfg.max_keys && a.key@ == req.key@ && a.session@ == req.session@ && wait@
            == req.wait_ms * 1_000_000,
        final(t).acl == old(t).acl && final(t).hub == old(t).hub && final(t).registry == old(
            t).registry && final(t).ready == old(t).ready && final(t).config == old(t).config,
{
}

/// The service refuses a lease below the floor in the words of the lock.
pub proof fn the_service_refuses_short_leases(
    s: PalisadeService,
    bearer: Option<&str>,
    who: Principal,
    key: &str,
    req: RenewRequest,
    ttl: Span,
    told: Error,
    said: String,
    r: Result<Invocation, Status>,
)
    requires
        call_ensures(Acl::resolve, (&s.acl, bearer), Ok::<&Principal, Status>(&who)),
        call_ensures(Principal::check_extend, (&who, key), Ok::<(), Status>(())),
        key@ == req.key@,
        ttl@ == req.ttl_ms * 1_000_000,
        ttl@ <= s.config.max_ttl@,
        call_ensures(check_floor, ("extend ttl ", &ttl), Err::<(), Error>(told)),
        call_ensures(Error::message, (&told,), said),
        call_ensures(PalisadeService::extend, (&s, bearer, &req), r),
    ensures
        r matches Err(e) && e.code == Code::Internal && e@.message == said@,
{
}

/// Open access lists know no token, and a listing starts before its first key.
pub proof fn open_lists_know_no_token(
    acl: Acl,
    k: Seq<char>,
    m: RedisLockManager,
    prefix: &str,
    scan: Scan,
)
    requires
        call_ensures(Acl::open, (), acl),
        call_ensures(RedisLockManager::scan_held, (&m, prefix), scan),
    ensures
        acl@.open && !acl@.by_token.dom().contains(k),
        scan.at == 0 && scan.batch@.len() == 0 && scan.prefix@ == prefix@,
{
}

} // verus!
