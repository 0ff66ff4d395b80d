//! The fair mutex: waiters queue and are served in the order of their arrival.
//!
//! Waiters heartbeat while queued. A release writes the winner's token into
//! the lock, and the winner finds it on its next attempt.

use vstd::prelude::*;

use crate::command::{call, Invocation, InvocationV, Script};
use crate::error::{backend, held, lost, Error, ErrorV};
use crate::fencing::FencingToken;
use crate::leases::LeaseCalls;
use crate::options::{below_floor, check_floor, min_ttl, LockOptions};
use crate::owner::OwnerId;
use crate::poll::{end_of_wait, Waiting};
use crate::reentrant::hold_answer;
use crate::single::{extend_call, extend_invocation, fence_key, fence_key_for, lease_millis,
    sendable, RedisLockManager};
use crate::slots::{beside, name_beside};
use crate::span::{millis, Span};

verus! {

/// The shortest time in milliseconds that a queued waiter stays alive without
/// another heartbeat.
pub const MIN_HEARTBEAT_MS: u64 = 2_000;

/// The lease in milliseconds that a waiter gets at the handoff.
pub const HANDOFF_TTL_MS: u64 = 30_000;

/// The queue of `key`, in its hash slot.
pub open spec fn queue_key(key: Seq<char>) -> Seq<char> {
    beside(key, "q"@)
}

/// What the heartbeats of the waiters for `key` begin with.
pub open spec fn heartbeat_prefix(key: Seq<char>) -> Seq<char> {
    beside(key, "hb:"@)
}

/// How long a waiter with a lease of `ms` milliseconds stays alive without
/// another heartbeat.
pub open spec fn heartbeat_ttl(ms: nat) -> nat {
    if ms < 2_000 {
        2_000
    } else {
        ms
    }
}

/// The script call that takes `key` for `token`, or queues it.
pub open spec fn fair_acquire_call(key: Seq<char>, token: Seq<char>, ttl: nat) -> InvocationV {
    call(Script::FairAcquire).key(key).key(queue_key(key)).key(fence_key(key)).key(
        heartbeat_prefix(key) + token,
    ).text(token).num(millis(ttl) as u64).num((millis(ttl) * 10) as u64).num(
        heartbeat_ttl(millis(ttl)) as u64,
    )
}

/// The script call that frees `key` and hands it to the oldest live waiter.
pub open spec fn fair_release_call(key: Seq<char>, token: Seq<char>) -> InvocationV {
    call(Script::FairRelease).key(key).key(queue_key(key)).key(fence_key(key)).text(token).num(
        30_000,
    ).text(heartbeat_prefix(key))
}

fn queue_key_for(key: &str) -> (r: String)
    ensures
        r@ == queue_key(key@),
{
    name_beside(key, "q")
}

fn heartbeat_prefix_for(key: &str) -> (r: String)
    ensures
        r@ == heartbeat_prefix(key@),
{
    name_beside(key, "hb:")
}

/// An acquisition whose script call is still to be answered.
#[derive(Debug)]
pub struct PendingFair {
    pub key: String,
    pub owner: OwnerId,
    pub ttl: Span,
}

impl PendingFair {
    /// The call to send.
    pub fn invocation(&self) -> (r: Invocation)
        requires
            sendable(self.ttl@),
        ensures
            r@ == fair_acquire_call(self.key@, self.owner.token_text(), self.ttl@),
    {
        let (ms, fence_ms) = lease_millis(&self.ttl);
        let heartbeat_ms: u64 = if ms < MIN_HEARTBEAT_MS {
            MIN_HEARTBEAT_MS
        } else {
            ms
        };
        let key = self.key.as_str();
        let token = self.owner.token();
        Invocation::call(Script::FairAcquire).key(key).key(queue_key_for(key).as_str()).key(
            fence_key_for(key).as_str(),
        ).key(heartbeat_prefix_for(key).concat(token.as_str()).as_str()).text(token.as_str()).num(
            ms,
        ).num(fence_ms).num(heartbeat_ms)
    }

    /// What the answer means: a status of 1 or 2 is a grant under the fence
    /// that came with it, any other status means that the waiter is queued.
    pub fn complete(self, reply: Result<(i64, i64), String>) -> (r: Result<FairLockHandle, Error>)
        ensures
            match reply {
                Ok((status, fence)) => if status == 1 || status == 2 {
                    r matches Ok(h) && h.key@ == self.key@ && h.owner == self.owner && h.fence@
                        == fence as u64 && !h.gone
                } else {
                    r matches Err(e) && e@ == (ErrorV::Held { key: self.key@ })
                },
                Err(m) => r matches Err(e) && e@ == ErrorV::Backend("fair acquire failed: "@ + m@),
            },
    {
        match reply {
            Ok((status, fence)) => {
                if status == 1 || status == 2 {
                    Ok(
                        FairLockHandle {
                            key: self.key,
                            owner: self.owner,
                            fence: FencingToken::new(fence as u64),
                            gone: false,
                        },
                    )
                } else {
                    Err(held(self.key.as_str()))
                }
            },
            Err(m) => Err(backend("fair acquire failed: ", m.as_str())),
        }
    }
}

/// A fairly acquired lock.
#[derive(Debug)]
pub struct FairLockHandle {
    pub key: String,
    pub owner: OwnerId,
    pub fence: FencingToken,
    /// The lock was released, or is known to be lost.
    pub gone: bool,
}

impl FairLockHandle {
    /// These calls free the lock and hand it to the oldest live waiter.
    pub open spec fn hands_over(self, c: LeaseCalls) -> bool {
        c.lease(self.key@, 30_000, fair_release_call(self.key@, self.owner.token_text()))
    }

    /// The error of an operation on a lease that is no longer ours.
    pub open spec fn lost_error(self) -> ErrorV {
        ErrorV::Lost { key: self.key@, fence: self.fence@ }
    }

    /// The lock key.
    pub fn key(&self) -> (r: &str)
        ensures
            r@ == self.key@,
    {
        self.key.as_str()
    }

    /// Identity of this acquisition.
    pub fn owner(&self) -> (r: &OwnerId)
        ensures
            *r == self.owner,
    {
        &self.owner
    }

    /// Fence of the grant.
    pub fn fence(&self) -> (r: FencingToken)
        ensures
            r == self.fence,
    {
        self.fence
    }

    /// Claims the one release of this handle; false when it was claimed before.
    pub fn mark_gone(&mut self) -> (r: bool)
        ensures
            r == !old(self).gone,
            *final(self) == (FairLockHandle { gone: true, ..*old(self) }),
    {
        let first = !self.gone;
        self.gone = true;
        first
    }

    /// Begins the release: the calls to send, or `None` where the lock is gone
    /// already, which counts as success. The lock is handed over even where the
    /// fence counter could not be kept for the next waiter.
    pub fn release(&mut self) -> (r: Option<LeaseCalls>)
        ensures
            *final(self) == (FairLockHandle { gone: true, ..*old(self) }),
            r is None <==> old(self).gone,
            r matches Some(c) ==> old(self).hands_over(c),
    {
        if !self.mark_gone() {
            return None;
        }
        let key = self.key.as_str();
        let lock = Invocation::call(Script::FairRelease).key(key).key(
            queue_key_for(key).as_str(),
        ).key(fence_key_for(key).as_str()).text(self.owner.token().as_str()).num(
            HANDOFF_TTL_MS,
        ).text(heartbeat_prefix_for(key).as_str());
        Some(LeaseCalls::new(key, HANDOFF_TTL_MS, lock))
    }

    /// What the answer to [`FairLockHandle::release`] means.
    pub fn release_answer(&self, reply: Result<i64, String>) -> (r: Result<(), Error>)
        ensures
            match reply {
                Ok(n) => if n < 0 {
                    r matches Err(e) && e@ == self.lost_error()
                } else {
                    r is Ok
                },
                Err(m) => r matches Err(e) && e@ == ErrorV::Backend("fair release failed: "@ + m@),
            },
    {
        hold_answer("fair release failed: ", reply, self.key.as_str(), self.fence)
    }

    /// The calls to send when the handle is dropped, which hand the lock over as
    /// a release does; `None` where the lock is gone already.
    pub fn dropped(&mut self) -> (r: Option<LeaseCalls>)
        ensures
            *final(self) == (FairLockHandle { gone: true, ..*old(self) }),
            r is None <==> old(self).gone,
            r matches Some(c) ==> old(self).hands_over(c),
    {
        self.release()
    }

    /// Begins a renewal to `ttl`.
    pub fn extend(&self, ttl: &Span) -> (r: Result<Invocation, Error>)
        requires
            sendable(ttl@),
        ensures
            if ttl@ < min_ttl() {
                r matches Err(e) && e@ == ErrorV::InvalidConfig(below_floor("extend ttl "@, ttl@))
            } else if self.gone {
                r matches Err(e) && e@ == self.lost_error()
            } else {
                r matches Ok(i) && i@ == extend_call(self.key@, self.owner.token_text(), ttl@)
            },
    {
        match check_floor("extend ttl ", ttl) {
            Ok(()) => {},
            Err(e) => {
                return Err(e);
            },
        }
        if self.gone {
            return Err(lost(self.key.as_str(), self.fence.value()));
        }
        Ok(extend_invocation(self.key.as_str(), self.owner.token().as_str(), ttl))
    }

    /// What the answer to [`FairLockHandle::extend`] means. An answer that the
    /// lease is not ours makes the lock gone; no answer does not.
    pub fn extended(&mut self, reply: Result<i64, String>) -> (r: Result<(), Error>)
        ensures
            match reply {
                Ok(n) => if n == 1 {
                    r is Ok && *final(self) == *old(self)
                } else {
                    &&& r matches Err(e) && e@ == old(self).lost_error()
                    &&& *final(self) == (FairLockHandle { gone: true, ..*old(self) })
                },
                Err(m) => {
                    &&& r matches Err(e) && e@ == ErrorV::Backend("fair extend failed: "@ + m@)
                    &&& *final(self) == *old(self)
                },
            },
    {
        match reply {
            Ok(n) => if n == 1 {
                Ok(())
            } else {
                self.gone = true;
                Err(lost(self.key.as_str(), self.fence.value()))
            },
            Err(m) => Err(backend("fair extend failed: ", m.as_str())),
        }
    }
}

impl RedisLockManager {
    /// Begins a fair acquisition of `key` for a fresh owner.
    pub fn try_lock_fair(&self, key: &str, options: &LockOptions) -> (r: Result<
        PendingFair,
        Error,
    >)
        ensures
            r is Ok <==> options.lease(self.default_ttl)@ >= min_ttl(),
            r matches Ok(p) ==> p.key@ == key@ && p.ttl == options.lease(self.default_ttl)
                && p.owner.minted(),
            r matches Err(e) ==> e@ == ErrorV::InvalidConfig(
                below_floor("ttl "@, options.lease(self.default_ttl)@),
            ),
    {
        self.try_lock_fair_as(key, OwnerId::generate(), options)
    }

    /// Begins a fair acquisition of `key` for `owner`.
    pub fn try_lock_fair_as(&self, key: &str, owner: OwnerId, options: &LockOptions) -> (r: Result<
        PendingFair,
        Error,
    >)
        ensures
            r is Ok <==> options.lease(self.default_ttl)@ >= min_ttl(),
            r matches Ok(p) ==> p.key@ == key@ && p.owner == owner && p.ttl == options.lease(
                self.default_ttl,
            ),
            r matches Err(e) ==> e@ == ErrorV::InvalidConfig(
                below_floor("ttl "@, options.lease(self.default_ttl)@),
            ),
    {
        match options.checked_lease(self.default_ttl) {
            Ok(ttl) => Ok(PendingFair { key: key.to_owned(), owner, ttl }),
            Err(e) => Err(e),
        }
    }

    /// Begins a fair wait for `key` at `now`, for a fresh owner that keeps its
    /// place in the queue from attempt to attempt.
    pub fn try_lock_fair_for(&self, key: &str, options: &LockOptions, wait: &Span, now: u128) -> (r:
        Result<FairWait, Error>)
        ensures
            r is Ok <==> options.lease(self.default_ttl)@ >= min_ttl(),
            r matches Ok(w) ==> w.owner.minted() && w.ttl == options.lease(self.default_ttl)
                && w.waiting.key@ == key@ && w.waiting.deadline == end_of_wait(now, wait@)
                && !w.waiting.clipped,
            r matches Err(e) ==> e@ == ErrorV::InvalidConfig(
                below_floor("ttl "@, options.lease(self.default_ttl)@),
            ),
    {
        self.try_lock_fair_for_as(key, OwnerId::generate(), options, wait, now)
    }

    /// Begins a fair wait for `key` at `now`, for `owner`.
    pub fn try_lock_fair_for_as(
        &self,
        key: &str,
        owner: OwnerId,
        options: &LockOptions,
        wait: &Span,
        now: u128,
    ) -> (r: Result<FairWait, Error>)
        ensures
            r is Ok <==> options.lease(self.default_ttl)@ >= min_ttl(),
            r matches Ok(w) ==> w.owner == owner && w.ttl == options.lease(self.default_ttl)
                && w.waiting.key@ == key@ && w.waiting.deadline == end_of_wait(now, wait@)
                && !w.waiting.clipped,
            r matches Err(e) ==> e@ == ErrorV::InvalidConfig(
                below_floor("ttl "@, options.lease(self.default_ttl)@),
            ),
    {
        match options.checked_lease(self.default_ttl) {
            Ok(ttl) => Ok(FairWait { owner, ttl, waiting: Waiting::start(key, wait, now) }),
            Err(e) => Err(e),
        }
    }
}

/// A fair wait: one owner, queued once, asking again and again.
#[derive(Debug)]
pub struct FairWait {
    pub owner: OwnerId,
    pub ttl: Span,
    pub waiting: Waiting,
}

impl FairWait {
    /// The next attempt. Every attempt is made under the same token, so each
    /// refreshes the one queue entry and heartbeat of this waiter, and finds
    /// the lock once it was handed over.
    pub fn attempt(&self) -> (r: PendingFair)
        ensures
            r.key@ == self.waiting.key@,
            r.owner == self.owner,
            r.ttl == self.ttl,
    {
        PendingFair { key: self.waiting.key.clone(), owner: self.owner, ttl: self.ttl }
    }
}

} // verus!
