//! The mutex on one store instance: the foundation everything else builds on.
//!
//! Each operation is one atomic script call. The functions here decide what is
//! sent and what the answer means; sending is the caller's part.

use vstd::prelude::*;

use crate::command::{call, cmd, Command, Invocation, InvocationV, Script};
use crate::config::{config_fault, may_meet, refused_url, words, RedisConfig, RedisConfigV};
use crate::error::{backend, held, lost, Error, ErrorV};
use crate::fencing::FencingToken;
use crate::options::{below_floor, check_floor, min_ttl, LockOptions};
use crate::owner::OwnerId;
use crate::poll::{end_of_wait, Waiting};
use crate::scan::Scan;
use crate::slots::{beside, name_beside};
use crate::span::{millis, Span};
use crate::testament::{clear_will_call, clear_will_invocation};
use crate::watchdog::Renewal;

verus! {

/// A fence counter outlives its lease by this factor, so that it never expires
/// while its lock could still be held.
pub const FENCE_TTL_MULTIPLIER: u64 = 10;

/// A lease whose fence lease fits the 64 bits that are sent, times in
/// nanoseconds.
pub open spec fn sendable(ttl: nat) -> bool {
    millis(ttl) * 10 <= u64::MAX
}

/// The fence counter of a lock key, kept in its cluster hash slot.
pub open spec fn fence_key(key: Seq<char>) -> Seq<char> {
    beside(key, "fence"@)
}

/// The fence counter of a lock key.
pub fn fence_key_for(key: &str) -> (r: String)
    ensures
        r@ == fence_key(key@),
{
    name_beside(key, "fence")
}

/// The milliseconds of a lease and of its fence counter.
pub fn lease_millis(ttl: &Span) -> (r: (u64, u64))
    requires
        sendable(ttl@),
    ensures
        r.0 == millis(ttl@),
        r.1 == millis(ttl@) * 10,
{
    let ms = ttl.as_millis();
    (ms, ms * FENCE_TTL_MULTIPLIER)
}

/// The script call that takes `key` for `token`.
pub open spec fn acquire_call(key: Seq<char>, token: Seq<char>, ttl: nat) -> InvocationV {
    call(Script::Acquire).key(key).key(fence_key(key)).text(token).num(millis(ttl) as u64).num(
        (millis(ttl) * 10) as u64,
    )
}

/// The script call that frees `key` if `token` owns it.
pub open spec fn release_call(key: Seq<char>, token: Seq<char>) -> InvocationV {
    call(Script::Release).key(key).key(fence_key(key)).text(token)
}

/// The script call that renews the lease of `key` if `token` owns it.
pub open spec fn extend_call(key: Seq<char>, token: Seq<char>, ttl: nat) -> InvocationV {
    call(Script::Extend).key(key).key(fence_key(key)).text(token).num(millis(ttl) as u64).num(
        (millis(ttl) * 10) as u64,
    )
}

/// Takes `key` for `token`.
pub fn acquire_invocation(key: &str, token: &str, ttl: &Span) -> (r: Invocation)
    requires
        sendable(ttl@),
    ensures
        r@ == acquire_call(key@, token@, ttl@),
{
    let (ms, fence_ms) = lease_millis(ttl);
    Invocation::call(Script::Acquire).key(key).key(fence_key_for(key).as_str()).text(token).num(
        ms,
    ).num(fence_ms)
}

/// Frees `key` if `token` owns it.
pub fn release_invocation(key: &str, token: &str) -> (r: Invocation)
    ensures
        r@ == release_call(key@, token@),
{
    Invocation::call(Script::Release).key(key).key(fence_key_for(key).as_str()).text(token)
}

/// Renews the lease of `key` if `token` owns it.
pub fn extend_invocation(key: &str, token: &str, ttl: &Span) -> (r: Invocation)
    requires
        sendable(ttl@),
    ensures
        r@ == extend_call(key@, token@, ttl@),
{
    let (ms, fence_ms) = lease_millis(ttl);
    Invocation::call(Script::Extend).key(key).key(fence_key_for(key).as_str()).text(token).num(
        ms,
    ).num(fence_ms)
}

/// The store's answer to an ownership-checked operation, or its failure with
/// the words in which it failed, under the heading `what`.
pub fn owner_answer(what: &str, reply: Result<i64, String>) -> (r: Result<bool, Error>)
    ensures
        match reply {
            Ok(n) => r == Ok::<bool, Error>(n == 1),
            Err(m) => r matches Err(e) && e@ == ErrorV::Backend(what@ + m@),
        },
{
    match reply {
        Ok(n) => Ok(n == 1),
        Err(m) => Err(backend(what, m.as_str())),
    }
}

/// The store's answer to a counting command, or its failure.
fn count_answer(what: &str, reply: Result<i64, String>) -> (r: Result<bool, Error>)
    ensures
        match reply {
            Ok(n) => r == Ok::<bool, Error>(n > 0),
            Err(m) => r matches Err(e) && e@ == ErrorV::Backend(what@ + m@),
        },
{
    match reply {
        Ok(n) => Ok(n > 0),
        Err(m) => Err(backend(what, m.as_str())),
    }
}

/// The commands that describe one key.
#[derive(Debug)]
pub struct DescribeCalls {
    pub held: Command,
    pub version: Command,
    pub lease: Command,
}

/// What is told of a key: whether it is held, the fence of its latest grant,
/// and its remaining milliseconds.
pub open spec fn description(held: bool, version: Option<u64>, lease: i64) -> (bool, u64, u64) {
    (
        held,
        match version {
            Some(v) => v,
            None => 0,
        },
        if held && lease > 0 {
            lease as u64
        } else {
            0
        },
    )
}

/// Why a connection is not made, if it is not: unsound settings, then an
/// endpoint that was refused, then an instance that could not be dialled.
pub open spec fn connect_fault(
    c: RedisConfigV,
    refusal: Option<Seq<char>>,
    undialled: Option<Seq<char>>,
) -> Option<ErrorV> {
    match config_fault(c) {
        Some(fault) => Some(fault),
        None => match refusal {
            Some(m) => Some(ErrorV::InvalidConfig("bad redis url `"@ + c.url + "`: "@ + m)),
            None => match undialled {
                Some(m) => Some(ErrorV::Backend("connect "@ + c.url + ": "@ + m)),
                None => None,
            },
        },
    }
}

/// `r` is how connecting ends under the settings `c`.
pub open spec fn connects(
    c: RedisConfigV,
    refusal: Option<Seq<char>>,
    dialled: Result<(), String>,
    r: Result<RedisLockManager, Error>,
) -> bool {
    match connect_fault(
        c,
        refusal,
        match dialled {
            Ok(()) => None,
            Err(m) => Some(m@),
        },
    ) {
        Some(fault) => r matches Err(e) && e@ == fault,
        None => r matches Ok(m) && m.default_ttl@ == c.default_ttl && m.watchdog_default
            == c.watchdog,
    }
}

/// The lock manager of one store instance.
#[derive(Clone, Copy, Debug)]
pub struct RedisLockManager {
    /// Lease of acquisitions that give none.
    pub default_ttl: Span,
    /// Automatic renewal of acquisitions that do not say.
    pub watchdog_default: bool,
}

impl RedisLockManager {
    /// What has to hold before the instance that `config` names is dialled:
    /// sound settings and an endpoint that can be read.
    pub fn prepare(config: &RedisConfig) -> (r: Result<(), Error>)
        ensures
            exists|refusal: Option<Seq<char>>| #[trigger]
                may_meet(config@.url, refusal) && match connect_fault(config@, refusal, None) {
                    Some(fault) => r matches Err(e) && e@ == fault,
                    None => r is Ok,
                },
    {
        let refusal = refused_url(config.url());
        let ghost met = words(refusal);
        match RedisLockManager::connected(config, refusal, Ok(())) {
            Ok(_) => {
                proof {
                    assert(may_meet(config@.url, met));
                }
                Ok(())
            },
            Err(e) => {
                proof {
                    assert(may_meet(config@.url, met));
                }
                Err(e)
            },
        }
    }

    /// The manager of the instance that `config` names, given how dialling it
    /// went.
    pub fn connect(config: &RedisConfig, dialled: Result<(), String>) -> (r: Result<Self, Error>)
        ensures
            exists|refusal: Option<Seq<char>>| #[trigger]
                may_meet(config@.url, refusal) && connects(config@, refusal, dialled, r),
    {
        let refusal = refused_url(config.url());
        let ghost met = words(refusal);
        let r = RedisLockManager::connected(config, refusal, dialled);
        proof {
            assert(may_meet(config@.url, met) && connects(config@, met, dialled, r));
        }
        r
    }

    /// The manager of the instance that `config` names, given whether its
    /// endpoint was refused and how dialling it went.
    pub fn connected(
        config: &RedisConfig,
        refusal: Option<String>,
        dialled: Result<(), String>,
    ) -> (r: Result<Self, Error>)
        ensures
            connects(config@, words(refusal), dialled, r),
    {
        match config.validate() {
            Ok(()) => {},
            Err(e) => {
                return Err(e);
            },
        }
        match refusal {
            Some(m) => {
                return Err(
                    Error::InvalidConfig(
                        "bad redis url `".to_owned().concat(config.url()).concat("`: ").concat(
                            m.as_str(),
                        ),
                    ),
                );
            },
            None => {},
        }
        match dialled {
            Err(m) => Err(
                Error::Backend(
                    "connect ".to_owned().concat(config.url()).concat(": ").concat(m.as_str()),
                ),
            ),
            Ok(()) => Ok(
                RedisLockManager {
                    default_ttl: config.default_ttl(),
                    watchdog_default: config.watchdog(),
                },
            ),
        }
    }

    /// Begins an acquisition of `key` with the default lease, for a fresh owner.
    pub fn try_lock(&self, key: &str) -> (r: Result<PendingLock, Error>)
        requires
            sendable(self.default_ttl@),
        ensures
            r is Ok <==> self.default_ttl@ >= min_ttl(),
            r matches Ok(p) ==> p.key@ == key@ && p.ttl == self.default_ttl && p.watchdog
                == self.watchdog_default && p.owner.minted(),
            r matches Err(e) ==> e@ == ErrorV::InvalidConfig(
                below_floor("ttl "@, self.default_ttl@),
            ),
    {
        self.try_lock_with(key, &LockOptions::new())
    }

    /// Begins an acquisition of `key` under `options`, for a fresh owner.
    pub fn try_lock_with(&self, key: &str, options: &LockOptions) -> (r: Result<
        PendingLock,
        Error,
    >)
        requires
            sendable(options.lease(self.default_ttl)@),
        ensures
            r is Ok <==> options.lease(self.default_ttl)@ >= min_ttl(),
            r matches Ok(p) ==> p.key@ == key@ && p.ttl == options.lease(self.default_ttl)
                && p.watchdog == (match options.watchdog {
                Some(w) => w,
                None => self.watchdog_default,
            }) && p.owner.minted(),
            r matches Err(e) ==> e@ == ErrorV::InvalidConfig(
                below_floor("ttl "@, options.lease(self.default_ttl)@),
            ),
    {
        self.try_lock_as(key, OwnerId::generate(), options)
    }

    /// Begins an acquisition of `key` under `options`, for `owner`. The lease is
    /// the one that the options give, and the manager's default where they give
    /// none.
    pub fn try_lock_as(&self, key: &str, owner: OwnerId, options: &LockOptions) -> (r: Result<
        PendingLock,
        Error,
    >)
        requires
            sendable(options.lease(self.default_ttl)@),
        ensures
            r is Ok <==> options.lease(self.default_ttl)@ >= min_ttl(),
            r matches Ok(p) ==> p.key@ == key@ && p.owner == owner && p.ttl == options.lease(
                self.default_ttl,
            ) && p.watchdog == (match options.watchdog {
                Some(w) => w,
                None => self.watchdog_default,
            }),
            r matches Err(e) ==> e@ == ErrorV::InvalidConfig(
                below_floor("ttl "@, options.lease(self.default_ttl)@),
            ),
    {
        let ttl = match options.checked_lease(self.default_ttl) {
            Ok(ttl) => ttl,
            Err(e) => {
                return Err(e);
            },
        };
        let watchdog = match options.watchdog {
            Some(w) => w,
            None => self.watchdog_default,
        };
        Ok(PendingLock { key: key.to_owned(), owner, ttl, watchdog })
    }

    /// Begins a wait for `key` at `now`: acquisitions are attempted until one
    /// settles the wait or `wait` elapses.
    pub fn try_lock_for(&self, key: &str, wait: &Span, now: u128) -> (r: Waiting)
        ensures
            r.key@ == key@,
            r.deadline == end_of_wait(now, wait@),
            r.clipped,
    {
        Waiting::start_clipped(key, wait, now)
    }

    /// Asks whether anyone holds `key`, changing nothing.
    pub fn probe_held(&self, key: &str) -> (r: Command)
        ensures
            r@ == cmd("EXISTS"@).text(key@),
    {
        Command::named("EXISTS").text(key)
    }

    /// What the answer to [`RedisLockManager::probe_held`] means.
    pub fn probed(&self, reply: Result<i64, String>) -> (r: Result<bool, Error>)
        ensures
            match reply {
                Ok(n) => r == Ok::<bool, Error>(n > 0),
                Err(m) => r matches Err(e) && e@ == ErrorV::Backend("probe failed: "@ + m@),
            },
    {
        count_answer("probe failed: ", reply)
    }

    /// Deletes `key` without asking who owns it.
    pub fn force_unlock(&self, key: &str) -> (r: Command)
        ensures
            r@ == cmd("DEL"@).text(key@),
    {
        Command::named("DEL").text(key)
    }

    /// What the answer to [`RedisLockManager::force_unlock`] means: whether a
    /// held key was deleted.
    pub fn force_unlocked(&self, reply: Result<i64, String>) -> (r: Result<bool, Error>)
        ensures
            match reply {
                Ok(n) => r == Ok::<bool, Error>(n > 0),
                Err(m) => r matches Err(e) && e@ == ErrorV::Backend(
                    "force unlock failed: "@ + m@,
                ),
            },
    {
        count_answer("force unlock failed: ", reply)
    }

    /// Frees `key` if `token` owns it, for a caller without a handle. As this is
    /// an explicit release, the will goes with it.
    pub fn unlock_with_token(&self, key: &str, token: &str) -> (r: Farewell)
        ensures
            r.bids(key@, token@),
    {
        farewell_calls(key, token)
    }

    /// What the answer to the release of [`RedisLockManager::unlock_with_token`]
    /// means: whether the token still owned the key.
    pub fn unlocked_with_token(&self, reply: Result<i64, String>) -> (r: Result<bool, Error>)
        ensures
            match reply {
                Ok(n) => r == Ok::<bool, Error>(n == 1),
                Err(m) => r matches Err(e) && e@ == ErrorV::Backend("unlock failed: "@ + m@),
            },
    {
        owner_answer("unlock failed: ", reply)
    }

    /// Renews the lease of `key` if `token` owns it, for a caller without a
    /// handle.
    pub fn extend_with_token(&self, key: &str, token: &str, ttl: &Span) -> (r: Result<
        Invocation,
        Error,
    >)
        requires
            sendable(ttl@),
        ensures
            r is Ok <==> ttl@ >= min_ttl(),
            r matches Ok(i) ==> i@ == extend_call(key@, token@, ttl@),
            r matches Err(e) ==> e@ == ErrorV::InvalidConfig(below_floor("extend ttl "@, ttl@)),
    {
        match check_floor("extend ttl ", ttl) {
            Ok(()) => Ok(extend_invocation(key, token, ttl)),
            Err(e) => Err(e),
        }
    }

    /// What the answer to [`RedisLockManager::extend_with_token`] means:
    /// whether the token still owned the key.
    pub fn extended_with_token(&self, reply: Result<i64, String>) -> (r: Result<bool, Error>)
        ensures
            match reply {
                Ok(n) => r == Ok::<bool, Error>(n == 1),
                Err(m) => r matches Err(e) && e@ == ErrorV::Backend("extend failed: "@ + m@),
            },
    {
        owner_answer("extend failed: ", reply)
    }

    /// Begins an enumeration of the held keys under `prefix`.
    pub fn scan_held(&self, prefix: &str) -> (r: Scan)
        ensures
            r.wf(),
            r.prefix@ == prefix@,
            r.fresh,
            r.cursor == 0,
            r.batch@.len() == 0,
            r.at == 0,
            r.found@.len() == 0,
    {
        Scan::new(prefix)
    }

    /// Asks whether `key` is held, for its fence counter, and for its remaining
    /// lease.
    pub fn describe_key(&self, key: &str) -> (r: DescribeCalls)
        ensures
            r.held@ == cmd("EXISTS"@).text(key@),
            r.version@ == cmd("GET"@).text(fence_key(key@)),
            r.lease@ == cmd("PTTL"@).text(key@),
    {
        DescribeCalls {
            held: Command::named("EXISTS").text(key),
            version: Command::named("GET").text(fence_key_for(key).as_str()),
            lease: Command::named("PTTL").text(key),
        }
    }

    /// Puts the answers to [`RedisLockManager::describe_key`] together: whether
    /// the key is held, the fence of its latest grant (0 before the first), and
    /// its remaining milliseconds (0 when it is free).
    pub fn described(
        &self,
        held: Result<i64, String>,
        version: Result<Option<u64>, String>,
        lease: Result<i64, String>,
    ) -> (r: Result<(bool, u64, u64), Error>)
        ensures
            match (held, version, lease) {
                (Ok(n), Ok(v), Ok(t)) => r == Ok::<(bool, u64, u64), Error>(
                    description(n > 0, v, t),
                ),
                (Err(m), _, _) => r matches Err(e) && e@ == ErrorV::Backend(
                    "describe failed: "@ + m@,
                ),
                (Ok(_), Err(m), _) => r matches Err(e) && e@ == ErrorV::Backend(
                    "describe failed: "@ + m@,
                ),
                (Ok(_), Ok(_), Err(m)) => r matches Err(e) && e@ == ErrorV::Backend(
                    "describe failed: "@ + m@,
                ),
            },
    {
        let n: i64 = match held {
            Ok(n) => n,
            Err(m) => {
                return Err(backend("describe failed: ", m.as_str()));
            },
        };
        let version: u64 = match version {
            Ok(Some(v)) => v,
            Ok(None) => 0,
            Err(m) => {
                return Err(backend("describe failed: ", m.as_str()));
            },
        };
        let t: i64 = match lease {
            Ok(t) => t,
            Err(m) => {
                return Err(backend("describe failed: ", m.as_str()));
            },
        };
        let ttl_ms: u64 = if n > 0 && t > 0 {
            t as u64
        } else {
            0
        };
        Ok((n > 0, version, ttl_ms))
    }

    /// A handle on a lock that was granted by other means than
    /// [`RedisLockManager::try_lock_with`].
    pub fn build_handle_from_parts(&self, key: &str, owner: OwnerId, fence: u64, ttl: Span) -> (r:
        RedisLockHandle)
        ensures
            r.key@ == key@,
            r.owner == owner,
            r.fence@ == fence,
            r.ttl == ttl,
            !r.released,
            !r.poisoned,
    {
        RedisLockHandle {
            key: key.to_owned(),
            owner,
            fence: FencingToken::new(fence),
            ttl,
            released: false,
            poisoned: false,
        }
    }
}

/// An acquisition whose script call is still to be answered.
#[derive(Debug)]
pub struct PendingLock {
    pub key: String,
    pub owner: OwnerId,
    pub ttl: Span,
    /// Whether the lease is to be renewed automatically once granted.
    pub watchdog: bool,
}

impl PendingLock {
    /// The call to send.
    pub fn invocation(&self) -> (r: Invocation)
        requires
            sendable(self.ttl@),
        ensures
            r@ == acquire_call(self.key@, self.owner.token_text(), self.ttl@),
    {
        acquire_invocation(self.key.as_str(), self.owner.token().as_str(), &self.ttl)
    }

    /// What the answer means: a status of 1 or 2 is a grant under the fence
    /// that came with it, any other status means that the key is held.
    pub fn complete(self, reply: Result<(i64, i64), String>) -> (r: Result<
        RedisLockHandle,
        Error,
    >)
        ensures
            match reply {
                Ok((status, fence)) => if status == 1 || status == 2 {
                    r matches Ok(h) && h.key@ == self.key@ && h.owner == self.owner && h.fence@
                        == fence as u64 && h.ttl == self.ttl && !h.released && !h.poisoned
                } else {
                    r matches Err(e) && e@ == (ErrorV::Held { key: self.key@ })
                },
                Err(m) => r matches Err(e) && e@ == ErrorV::Backend(
                    "acquire script failed: "@ + m@,
                ),
            },
    {
        match reply {
            Ok((status, fence)) => {
                if status == 1 || status == 2 {
                    Ok(
                        RedisLockHandle {
                            key: self.key,
                            owner: self.owner,
                            fence: FencingToken::new(fence as u64),
                            ttl: self.ttl,
                            released: false,
                            poisoned: false,
                        },
                    )
                } else {
                    Err(held(self.key.as_str()))
                }
            },
            Err(m) => Err(backend("acquire script failed: ", m.as_str())),
        }
    }
}

/// The calls of an explicit release, in this order: the will goes while the
/// token still owns the key, and its answer does not matter.
#[derive(Debug)]
pub struct Farewell {
    pub clear_will: Invocation,
    pub release: Invocation,
}

impl Farewell {
    /// These are the calls that free `key` if `token` owns it, and delete its
    /// will before.
    pub open spec fn bids(self, key: Seq<char>, token: Seq<char>) -> bool {
        &&& self.clear_will@ == clear_will_call(key, token)
        &&& self.release@ == release_call(key, token)
    }
}

/// The calls of an explicit release of `key` by the owner with `token`.
pub fn farewell_calls(key: &str, token: &str) -> (r: Farewell)
    ensures
        r.bids(key@, token@),
{
    Farewell {
        clear_will: clear_will_invocation(key, token),
        release: release_invocation(key, token),
    }
}

/// A held lock.
#[derive(Debug)]
pub struct RedisLockHandle {
    pub key: String,
    pub owner: OwnerId,
    pub fence: FencingToken,
    pub ttl: Span,
    /// A release was begun, or release was left to someone else.
    pub released: bool,
    /// The lease is known to be lost.
    pub poisoned: bool,
}

impl RedisLockHandle {
    /// The error of an operation on a lease that is no longer ours.
    pub open spec fn lost_error(self) -> ErrorV {
        ErrorV::Lost { key: self.key@, fence: self.fence@ }
    }

    /// `f` holds the calls of an explicit release of this lock.
    pub open spec fn says_farewell(self, f: Farewell) -> bool {
        f.bids(self.key@, self.owner.token_text())
    }

    /// What is wrong with the answer to a release, if anything.
    pub open spec fn release_fault(self, reply: Result<i64, String>) -> Option<ErrorV> {
        match reply {
            Ok(n) => if n == 1 {
                None
            } else {
                Some(self.lost_error())
            },
            Err(m) => Some(ErrorV::Backend("release script failed: "@ + m@)),
        }
    }

    /// The lock key.
    pub fn key(&self) -> (r: &str)
        ensures
            r@ == self.key@,
    {
        self.key.as_str()
    }

    /// Identity of this acquisition.
    pub fn owner(&self) -> (r: &OwnerId)
        ensures
            *r == self.owner,
    {
        &self.owner
    }

    /// Fence of the grant.
    pub fn fence(&self) -> (r: FencingToken)
        ensures
            r == self.fence,
    {
        self.fence
    }

    /// Whether the lease is known to be lost.
    pub fn is_lost(&self) -> (r: bool)
        ensures
            r == self.poisoned,
    {
        self.poisoned
    }

    /// Claims the one release of this handle; false when it was claimed before.
    pub fn mark_released(&mut self) -> (r: bool)
        ensures
            r == !old(self).released,
            *final(self) == let_go(*old(self)),
    {
        let first = !self.released;
        self.released = true;
        first
    }

    /// Records that the lease is lost.
    pub fn mark_lost(&mut self)
        ensures
            *final(self) == poison(*old(self)),
    {
        self.poisoned = true;
    }

    /// Leaves the release to whoever holds the token.
    pub fn disarm(&mut self)
        ensures
            *final(self) == let_go(*old(self)),
    {
        self.released = true;
    }

    /// Begins a renewal to `ttl`.
    pub fn extend(&self, ttl: &Span) -> (r: Result<Invocation, Error>)
        requires
            sendable(ttl@),
        ensures
            if ttl@ < min_ttl() {
                r matches Err(e) && e@ == ErrorV::InvalidConfig(below_floor("extend ttl "@, ttl@))
            } else if self.released {
                r matches Err(e) && e@ == self.lost_error()
            } else {
                r matches Ok(i) && i@ == extend_call(self.key@, self.owner.token_text(), ttl@)
            },
    {
        match check_floor("extend ttl ", ttl) {
            Ok(()) => {},
            Err(e) => {
                return Err(e);
            },
        }
        if self.released {
            return Err(lost(self.key.as_str(), self.fence.value()));
        }
        Ok(extend_invocation(self.key.as_str(), self.owner.token().as_str(), ttl))
    }

    /// What the answer to [`RedisLockHandle::extend`] means. An answer that
    /// names another owner poisons the handle; no answer does not.
    pub fn extended(&mut self, reply: Result<i64, String>) -> (r: Result<(), Error>)
        ensures
            *final(self) == after_extension(*old(self), reply),
            match reply {
                Ok(n) => if n == 1 {
                    r is Ok
                } else {
                    r matches Err(e) && e@ == old(self).lost_error()
                },
                Err(m) => r matches Err(e) && e@ == ErrorV::Backend(
                    "extend script failed: "@ + m@,
                ),
            },
    {
        match owner_answer("extend script failed: ", reply) {
            Ok(true) => Ok(()),
            Ok(false) => {
                self.poisoned = true;
                Err(lost(self.key.as_str(), self.fence.value()))
            },
            Err(e) => Err(e),
        }
    }

    /// The renewal that the watchdog sends.
    pub fn renewal(&self) -> (r: Invocation)
        requires
            sendable(self.ttl@),
        ensures
            r@ == extend_call(self.key@, self.owner.token_text(), self.ttl@),
    {
        extend_invocation(self.key.as_str(), self.owner.token().as_str(), &self.ttl)
    }

    /// Begins the release: the calls to send, or `None` where the release was
    /// begun or handed over before. A second release succeeds without doing
    /// anything.
    pub fn release(&mut self) -> (r: Option<Farewell>)
        ensures
            *final(self) == let_go(*old(self)),
            r is None <==> old(self).released,
            r matches Some(f) ==> old(self).says_farewell(f),
    {
        if !self.mark_released() {
            return None;
        }
        Some(farewell_calls(self.key.as_str(), self.owner.token().as_str()))
    }

    /// The call to send when the last handle is dropped; `None` where the
    /// release was begun or handed over before.
    pub fn dropped(&mut self) -> (r: Option<Invocation>)
        ensures
            *final(self) == let_go(*old(self)),
            r is None <==> old(self).released,
            r matches Some(i) ==> i@ == release_call(
                old(self).key@,
                old(self).owner.token_text(),
            ),
    {
        if !self.mark_released() {
            return None;
        }
        Some(release_invocation(self.key.as_str(), self.owner.token().as_str()))
    }

    /// What the answer to [`RedisLockHandle::release`] means.
    pub fn release_answer(&self, reply: Result<i64, String>) -> (r: Result<(), Error>)
        ensures
            r is Ok <==> self.release_fault(reply) is None,
            r matches Err(e) ==> self.release_fault(reply) == Some(e@),
    {
        match owner_answer("release script failed: ", reply) {
            Ok(true) => Ok(()),
            Ok(false) => Err(lost(self.key.as_str(), self.fence.value())),
            Err(e) => Err(e),
        }
    }
}

/// A handle after a release was begun, or it was dropped or disarmed.
pub open spec fn let_go(h: RedisLockHandle) -> RedisLockHandle {
    RedisLockHandle { released: true, ..h }
}

/// A handle whose lease is known to be lost.
pub open spec fn poison(h: RedisLockHandle) -> RedisLockHandle {
    RedisLockHandle { poisoned: true, ..h }
}

/// A handle after the store answered an extension: an answer that names
/// another owner poisons it.
pub open spec fn after_extension(
    h: RedisLockHandle,
    reply: Result<i64, String>,
) -> RedisLockHandle {
    match reply {
        Ok(n) => if n == 1 {
            h
        } else {
            poison(h)
        },
        Err(_) => h,
    }
}

/// What happens to a handle.
pub enum HandleOp {
    /// It is released, dropped or disarmed.
    LetGo,
    /// Its watchdog finds the lease lost.
    Poison,
    /// The store answers an extension.
    Extension(Result<i64, String>),
}

/// A handle after `ops`.
pub open spec fn after_handle_ops(h: RedisLockHandle, ops: Seq<HandleOp>) -> RedisLockHandle
    decreases ops.len(),
{
    if ops.len() == 0 {
        h
    } else {
        let before = after_handle_ops(h, ops.drop_last());
        match ops.last() {
            HandleOp::LetGo => let_go(before),
            HandleOp::Poison => poison(before),
            HandleOp::Extension(reply) => after_extension(before, reply),
        }
    }
}

/// Whatever happens to a handle, it stays the handle of one grant, a lost lease
/// stays lost, and a release is never taken back.
pub proof fn loss_and_release_are_final(h: RedisLockHandle, ops: Seq<HandleOp>)
    ensures
        ({
            let after = after_handle_ops(h, ops);
            &&& after.key == h.key
            &&& after.owner == h.owner
            &&& after.fence == h.fence
            &&& after.ttl == h.ttl
            &&& h.poisoned ==> after.poisoned
            &&& h.released ==> after.released
        }),
    decreases ops.len(),
{
    if ops.len() > 0 {
        loss_and_release_are_final(h, ops.drop_last());
    }
}

/// A handle sends at most one release: once it was released, dropped or
/// disarmed, every further release sends nothing and changes nothing.
pub proof fn handles_are_released_once(h: RedisLockHandle)
    ensures
        let_go(h).released,
        let_go(let_go(h)) == let_go(h),
{
}

/// What the answer to a renewal means for the watchdog.
pub fn renewal_outcome(reply: &Result<i64, String>) -> (r: Renewal)
    ensures
        r == match reply {
            Ok(n) => if *n == 1 {
                Renewal::Renewed
            } else {
                Renewal::NotOwner
            },
            Err(_) => Renewal::Failed,
        },
{
    match reply {
        Ok(n) => if *n == 1 {
            Renewal::Renewed
        } else {
            Renewal::NotOwner
        },
        Err(_) => Renewal::Failed,
    }
}

} // verus!
