//! The reentrant mutex: one owner may acquire repeatedly, and the key is freed
//! when every hold is given back.
//!
//! The owner is supplied by the caller. Each handle is one hold.

use vstd::prelude::*;

use crate::command::{call, Invocation, InvocationV, Script};
use crate::error::{backend, held, lost, Error, ErrorV};
use crate::fencing::FencingToken;
use crate::leases::LeaseCalls;
use crate::options::{below_floor, check_floor, min_ttl, LockOptions};
use crate::owner::OwnerId;
use crate::poll::{end_of_wait, Waiting};
use crate::single::{fence_key, fence_key_for, lease_millis, sendable, RedisLockManager};
use crate::span::{millis, Span};

verus! {

/// The script call that takes one hold of `key` for `token`.
pub open spec fn reentrant_acquire_call(
    key: Seq<char>,
    token: Seq<char>,
    ttl: nat,
) -> InvocationV {
    call(Script::ReentrantAcquire).key(key).key(fence_key(key)).text(token).num(
        millis(ttl) as u64,
    ).num((millis(ttl) * 10) as u64)
}

/// The script call that gives one hold of `key` back.
pub open spec fn release_one_call(key: Seq<char>, token: Seq<char>) -> InvocationV {
    call(Script::ReentrantRelease).key(key).text(token).num(0)
}

/// The script call that gives every hold of `token` on `key` back.
pub open spec fn release_all_call(key: Seq<char>, token: Seq<char>) -> InvocationV {
    call(Script::ReentrantReleaseAll).key(key).text(token)
}

/// The script call that renews the lease of `key` if `token` holds it.
pub open spec fn reentrant_extend_call(key: Seq<char>, token: Seq<char>, ttl: nat) -> InvocationV {
    call(Script::ReentrantExtend).key(key).text(token).num(millis(ttl) as u64)
}

/// What the answer to an operation on a hold means: a negative answer says
/// that the lease is no longer ours.
pub fn hold_answer(what: &str, reply: Result<i64, String>, key: &str, fence: FencingToken) -> (r:
    Result<(), Error>)
    ensures
        match reply {
            Ok(n) => if n < 0 {
                r matches Err(e) && e@ == (ErrorV::Lost { key: key@, fence: fence@ })
            } else {
                r is Ok
            },
            Err(m) => r matches Err(e) && e@ == ErrorV::Backend(what@ + m@),
        },
{
    match reply {
        Ok(n) => if n < 0 {
            Err(lost(key, fence.value()))
        } else {
            Ok(())
        },
        Err(m) => Err(backend(what, m.as_str())),
    }
}

/// An acquisition whose script call is still to be answered.
#[derive(Debug)]
pub struct PendingReentrant {
    pub key: String,
    pub owner: OwnerId,
    pub ttl: Span,
}

impl PendingReentrant {
    /// The call to send.
    pub fn invocation(&self) -> (r: Invocation)
        requires
            sendable(self.ttl@),
        ensures
            r@ == reentrant_acquire_call(self.key@, self.owner.token_text(), self.ttl@),
    {
        let (ms, fence_ms) = lease_millis(&self.ttl);
        Invocation::call(Script::ReentrantAcquire).key(self.key.as_str()).key(
            fence_key_for(self.key.as_str()).as_str(),
        ).text(self.owner.token().as_str()).num(ms).num(fence_ms)
    }

    /// What the answer means: a status of 1 or 2 is a grant under the fence
    /// that came with it, any other status means that the key is held.
    pub fn complete(self, reply: Result<(i64, i64), String>) -> (r: Result<
        ReentrantLockHandle,
        Error,
    >)
        ensures
            match reply {
                Ok((status, fence)) => if status == 1 || status == 2 {
                    r matches Ok(h) && h.key@ == self.key@ && h.owner == self.owner && h.fence@
                        == fence as u64 && !h.gone
                } else {
                    r matches Err(e) && e@ == (ErrorV::Held { key: self.key@ })
                },
                Err(m) => r matches Err(e) && e@ == ErrorV::Backend(
                    "reentrant acquire failed: "@ + m@,
                ),
            },
    {
        match reply {
            Ok((status, fence)) => {
                if status == 1 || status == 2 {
                    Ok(
                        ReentrantLockHandle {
                            key: self.key,
                            owner: self.owner,
                            fence: FencingToken::new(fence as u64),
                            gone: false,
                        },
                    )
                } else {
                    Err(held(self.key.as_str()))
                }
            },
            Err(m) => Err(backend("reentrant acquire failed: ", m.as_str())),
        }
    }
}

/// One hold on a reentrant lock.
#[derive(Debug)]
pub struct ReentrantLockHandle {
    pub key: String,
    pub owner: OwnerId,
    /// Fence of the latest grant or reentry.
    pub fence: FencingToken,
    /// The hold was given back, or is known to be lost.
    pub gone: bool,
}

impl ReentrantLockHandle {
    /// The error of an operation on a hold that is no longer ours.
    pub open spec fn lost_error(self) -> ErrorV {
        ErrorV::Lost { key: self.key@, fence: self.fence@ }
    }

    /// The lock key.
    pub fn key(&self) -> (r: &str)
        ensures
            r@ == self.key@,
    {
        self.key.as_str()
    }

    /// Identity used for reentrancy.
    pub fn owner(&self) -> (r: &OwnerId)
        ensures
            *r == self.owner,
    {
        &self.owner
    }

    /// Fence of the latest grant or reentry.
    pub fn fence(&self) -> (r: FencingToken)
        ensures
            r == self.fence,
    {
        self.fence
    }

    /// Claims the one release of this handle; false when it was claimed before.
    pub fn mark_gone(&mut self) -> (r: bool)
        ensures
            r == !old(self).gone,
            *final(self) == (ReentrantLockHandle { gone: true, ..*old(self) }),
    {
        let first = !self.gone;
        self.gone = true;
        first
    }

    /// Begins to give one hold back, also on drop: the call to send, or `None`
    /// where the hold is gone already, which counts as success.
    pub fn release_one(&mut self) -> (r: Option<Invocation>)
        ensures
            *final(self) == (ReentrantLockHandle { gone: true, ..*old(self) }),
            r is None <==> old(self).gone,
            r matches Some(i) ==> i@ == release_one_call(
                old(self).key@,
                old(self).owner.token_text(),
            ),
    {
        if !self.mark_gone() {
            return None;
        }
        Some(
            Invocation::call(Script::ReentrantRelease).key(self.key.as_str()).text(
                self.owner.token().as_str(),
            ).num(0),
        )
    }

    /// What the answer to [`ReentrantLockHandle::release_one`] means.
    pub fn released_one(&self, reply: Result<i64, String>) -> (r: Result<(), Error>)
        ensures
            match reply {
                Ok(n) => if n < 0 {
                    r matches Err(e) && e@ == self.lost_error()
                } else {
                    r is Ok
                },
                Err(m) => r matches Err(e) && e@ == ErrorV::Backend(
                    "reentrant release failed: "@ + m@,
                ),
            },
    {
        hold_answer("reentrant release failed: ", reply, self.key.as_str(), self.fence)
    }

    /// Begins to give back every hold that the owner has on the key: the call
    /// to send, or `None` where this hold is gone already, which counts as
    /// success.
    pub fn release_all(&mut self) -> (r: Option<Invocation>)
        ensures
            *final(self) == (ReentrantLockHandle { gone: true, ..*old(self) }),
            r is None <==> old(self).gone,
            r matches Some(i) ==> i@ == release_all_call(
                old(self).key@,
                old(self).owner.token_text(),
            ),
    {
        if !self.mark_gone() {
            return None;
        }
        Some(
            Invocation::call(Script::ReentrantReleaseAll).key(self.key.as_str()).text(
                self.owner.token().as_str(),
            ),
        )
    }

    /// What the answer to [`ReentrantLockHandle::release_all`] means.
    pub fn released_all(&self, reply: Result<i64, String>) -> (r: Result<(), Error>)
        ensures
            match reply {
                Ok(n) => if n < 0 {
                    r matches Err(e) && e@ == self.lost_error()
                } else {
                    r is Ok
                },
                Err(m) => r matches Err(e) && e@ == ErrorV::Backend(
                    "reentrant release-all failed: "@ + m@,
                ),
            },
    {
        hold_answer("reentrant release-all failed: ", reply, self.key.as_str(), self.fence)
    }

    /// Begins a renewal to `ttl`. It is sent once the fence counter is kept.
    pub fn extend(&self, ttl: &Span) -> (r: Result<LeaseCalls, Error>)
        ensures
            if ttl@ < min_ttl() {
                r matches Err(e) && e@ == ErrorV::InvalidConfig(below_floor("extend ttl "@, ttl@))
            } else if self.gone {
                r matches Err(e) && e@ == self.lost_error()
            } else {
                r matches Ok(c) && c.lease(
                    self.key@,
                    millis(ttl@) as u64,
                    reentrant_extend_call(self.key@, self.owner.token_text(), ttl@),
                )
            },
    {
        match check_floor("extend ttl ", ttl) {
            Ok(()) => {},
            Err(e) => {
                return Err(e);
            },
        }
        if self.gone {
            return Err(lost(self.key.as_str(), self.fence.value()));
        }
        let key = self.key.as_str();
        let ms = ttl.as_millis();
        let lock = Invocation::call(Script::ReentrantExtend).key(key).text(
            self.owner.token().as_str(),
        ).num(ms);
        Ok(LeaseCalls::new(key, ms, lock))
    }

    /// What the answer to [`ReentrantLockHandle::extend`] means. An answer that
    /// the lease is not ours makes the hold gone; no answer does not.
    pub fn extended(&mut self, reply: Result<i64, String>) -> (r: Result<(), Error>)
        ensures
            match reply {
                Ok(n) => if n < 0 {
                    &&& r matches Err(e) && e@ == old(self).lost_error()
                    &&& *final(self) == (ReentrantLockHandle { gone: true, ..*old(self) })
                } else {
                    r is Ok && *final(self) == *old(self)
                },
                Err(m) => {
                    &&& r matches Err(e) && e@ == ErrorV::Backend(
                        "reentrant extend failed: "@ + m@,
                    )
                    &&& *final(self) == *old(self)
                },
            },
    {
        if let Ok(n) = &reply {
            if *n < 0 {
                self.gone = true;
            }
        }
        hold_answer("reentrant extend failed: ", reply, self.key.as_str(), self.fence)
    }
}

impl RedisLockManager {
    /// Begins an acquisition of `key` for `owner`.
    pub fn try_lock_reentrant(&self, key: &str, owner: OwnerId, options: &LockOptions) -> (r:
        Result<PendingReentrant, Error>)
        ensures
            r is Ok <==> options.lease(self.default_ttl)@ >= min_ttl(),
            r matches Ok(p) ==> p.key@ == key@ && p.owner == owner && p.ttl == options.lease(
                self.default_ttl,
            ),
            r matches Err(e) ==> e@ == ErrorV::InvalidConfig(
                below_floor("ttl "@, options.lease(self.default_ttl)@),
            ),
    {
        match options.checked_lease(self.default_ttl) {
            Ok(ttl) => Ok(PendingReentrant { key: key.to_owned(), owner, ttl }),
            Err(e) => Err(e),
        }
    }

    /// Begins a wait for `key` at `now`.
    pub fn try_lock_reentrant_for(&self, key: &str, wait: &Span, now: u128) -> (r: Waiting)
        ensures
            r.key@ == key@,
            r.deadline == end_of_wait(now, wait@),
            !r.clipped,
    {
        Waiting::start(key, wait, now)
    }
}

} // verus!
