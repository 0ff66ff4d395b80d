//! The read-write lock: shared readers, one exclusive writer.
//!
//! New readers join while others read, so writers can starve under sustained
//! reading.

use vstd::prelude::*;

use crate::command::{call, Invocation, InvocationV, Script};
use crate::error::{backend, held, lost, Error, ErrorV};
use crate::fencing::FencingToken;
use crate::leases::LeaseCalls;
use crate::options::{below_floor, check_floor, min_ttl, LockOptions};
use crate::owner::OwnerId;
use crate::poll::{end_of_wait, Waiting};
use crate::reentrant::hold_answer;
use crate::single::{fence_key, fence_key_for, lease_millis, sendable, RedisLockManager};
use crate::span::{millis, Span};

verus! {

/// The script call `script` that asks for access to `key` for `token`.
pub open spec fn rw_acquire_call(
    script: Script,
    key: Seq<char>,
    token: Seq<char>,
    ttl: nat,
) -> InvocationV {
    call(script).key(key).key(fence_key(key)).text(token).num(millis(ttl) as u64).num(
        (millis(ttl) * 10) as u64,
    )
}

/// The script call that frees one reader slot of `key`; the lease of the
/// remaining readers is set to `ms` milliseconds.
pub open spec fn read_release_call(key: Seq<char>, token: Seq<char>, ms: u64) -> InvocationV {
    call(Script::RwReadRelease).key(key).text(token).num(ms)
}

/// The script call that frees the writer slot of `key`.
pub open spec fn write_release_call(key: Seq<char>, token: Seq<char>) -> InvocationV {
    call(Script::RwWriteRelease).key(key).text(token)
}

/// The script call that renews the lease of `key` if `token` has access.
pub open spec fn rw_extend_call(key: Seq<char>, token: Seq<char>, ttl: nat) -> InvocationV {
    call(Script::RwExtend).key(key).text(token).num(millis(ttl) as u64)
}

fn rw_acquire_invocation(script: Script, key: &str, owner: &OwnerId, ttl: &Span) -> (r: Invocation)
    requires
        sendable(ttl@),
    ensures
        r@ == rw_acquire_call(script, key@, owner.token_text(), ttl@),
{
    let (ms, fence_ms) = lease_millis(ttl);
    Invocation::call(script).key(key).key(fence_key_for(key).as_str()).text(
        owner.token().as_str(),
    ).num(ms).num(fence_ms)
}

/// Refuses a lease below the floor.
pub fn validate_ttl(ttl: &Span) -> (r: Result<(), Error>)
    ensures
        r is Ok <==> ttl@ >= min_ttl(),
        r matches Err(e) ==> e@ == ErrorV::InvalidConfig(below_floor("ttl "@, ttl@)),
{
    check_floor("ttl ", ttl)
}

/// A request for shared read access whose script call is still to be answered.
#[derive(Debug)]
pub struct PendingRead {
    pub key: String,
    pub owner: OwnerId,
    pub ttl: Span,
}

impl PendingRead {
    /// The call to send.
    pub fn invocation(&self) -> (r: Invocation)
        requires
            sendable(self.ttl@),
        ensures
            r@ == rw_acquire_call(
                Script::RwReadAcquire,
                self.key@,
                self.owner.token_text(),
                self.ttl@,
            ),
    {
        rw_acquire_invocation(Script::RwReadAcquire, self.key.as_str(), &self.owner, &self.ttl)
    }

    /// What the answer means: a status of 1 is a grant, any other
    /// means that the key is held.
    pub fn complete(self, reply: Result<(i64, i64), String>) -> (r: Result<RwReadHandle, Error>)
        ensures
            match reply {
                Ok((status, fence)) => if status == 1 {
                    r matches Ok(h) && h.key@ == self.key@ && h.owner == self.owner && h.fence@
                        == fence as u64 && h.ttl == self.ttl && !h.gone
                } else {
                    r matches Err(e) && e@ == (ErrorV::Held { key: self.key@ })
                },
                Err(m) => r matches Err(e) && e@ == ErrorV::Backend(
                    "rw read-acquire failed: "@ + m@,
                ),
            },
    {
        match reply {
            Ok((status, fence)) => {
                if status == 1 {
                    Ok(
                        RwReadHandle {
                            key: self.key,
                            owner: self.owner,
                            fence: FencingToken::new(fence as u64),
                            ttl: self.ttl,
                            gone: false,
                        },
                    )
                } else {
                    Err(held(self.key.as_str()))
                }
            },
            Err(m) => Err(backend("rw read-acquire failed: ", m.as_str())),
        }
    }
}

/// One reader slot.
#[derive(Debug)]
pub struct RwReadHandle {
    pub key: String,
    pub owner: OwnerId,
    pub fence: FencingToken,
    pub ttl: Span,
    /// The slot was given back, or is known to be lost.
    pub gone: bool,
}

impl RwReadHandle {
    /// These calls give the slot back and leave the remaining readers its lease.
    pub open spec fn leaves(self, c: LeaseCalls) -> bool {
        c.lease(
            self.key@,
            millis(self.ttl@) as u64,
            read_release_call(self.key@, self.owner.token_text(), millis(self.ttl@) as u64),
        )
    }

    /// The error of an operation on a slot that is no longer ours.
    pub open spec fn lost_error(self) -> ErrorV {
        ErrorV::Lost { key: self.key@, fence: self.fence@ }
    }

    /// The lock key.
    pub fn key(&self) -> (r: &str)
        ensures
            r@ == self.key@,
    {
        self.key.as_str()
    }

    /// Fence of the latest grant.
    pub fn fence(&self) -> (r: FencingToken)
        ensures
            r == self.fence,
    {
        self.fence
    }

    /// Claims the one release of this handle; false when it was claimed before.
    pub fn mark_gone(&mut self) -> (r: bool)
        ensures
            r == !old(self).gone,
            *final(self) == (RwReadHandle { gone: true, ..*old(self) }),
    {
        let first = !self.gone;
        self.gone = true;
        first
    }

    /// Begins a renewal to `ttl`. It is sent once the fence counter is kept.
    pub fn extend(&self, ttl: &Span) -> (r: Result<LeaseCalls, Error>)
        ensures
            if ttl@ < min_ttl() {
                r matches Err(e) && e@ == ErrorV::InvalidConfig(below_floor("ttl "@, ttl@))
            } else if self.gone {
                r matches Err(e) && e@ == self.lost_error()
            } else {
                r matches Ok(c) && c.lease(
                    self.key@,
                    millis(ttl@) as u64,
                    rw_extend_call(self.key@, self.owner.token_text(), ttl@),
                )
            },
    {
        match validate_ttl(ttl) {
            Ok(()) => {},
            Err(e) => {
                return Err(e);
            },
        }
        if self.gone {
            return Err(lost(self.key.as_str(), self.fence.value()));
        }
        let key = self.key.as_str();
        let ms = ttl.as_millis();
        let lock = Invocation::call(Script::RwExtend).key(key).text(
            self.owner.token().as_str(),
        ).num(ms);
        Ok(LeaseCalls::new(key, ms, lock))
    }

    /// What the answer to [`RwReadHandle::extend`] means. An answer that the
    /// lease is not ours makes the slot gone; no answer does not.
    pub fn extended(&mut self, reply: Result<i64, String>) -> (r: Result<(), Error>)
        ensures
            match reply {
                Ok(n) => if n < 0 {
                    &&& r matches Err(e) && e@ == old(self).lost_error()
                    &&& *final(self) == (RwReadHandle { gone: true, ..*old(self) })
                } else {
                    r is Ok && *final(self) == *old(self)
                },
                Err(m) => {
                    &&& r matches Err(e) && e@ == ErrorV::Backend("rw extend failed: "@ + m@)
                    &&& *final(self) == *old(self)
                },
            },
    {
        if let Ok(n) = &reply {
            if *n < 0 {
                self.gone = true;
            }
        }
        hold_answer("rw extend failed: ", reply, self.key.as_str(), self.fence)
    }

    /// Begins to give the slot back: the calls to send, or `None` where it is
    /// gone already, which counts as success. The slot is given back even where
    /// the fence counter could not be kept for the remaining readers.
    pub fn release(&mut self) -> (r: Option<LeaseCalls>)
        ensures
            *final(self) == (RwReadHandle { gone: true, ..*old(self) }),
            r is None <==> old(self).gone,
            r matches Some(c) ==> old(self).leaves(c),
    {
        if !self.mark_gone() {
            return None;
        }
        let key = self.key.as_str();
        let ms = self.ttl.as_millis();
        let lock = Invocation::call(Script::RwReadRelease).key(key).text(
            self.owner.token().as_str(),
        ).num(ms);
        Some(LeaseCalls::new(key, ms, lock))
    }

    /// What the answer to [`RwReadHandle::release`] means.
    pub fn release_answer(&self, reply: Result<i64, String>) -> (r: Result<(), Error>)
        ensures
            match reply {
                Ok(n) => if n < 0 {
                    r matches Err(e) && e@ == self.lost_error()
                } else {
                    r is Ok
                },
                Err(m) => r matches Err(e) && e@ == ErrorV::Backend(
                    "rw read-release failed: "@ + m@,
                ),
            },
    {
        hold_answer("rw read-release failed: ", reply, self.key.as_str(), self.fence)
    }

    /// The call to send when the handle is dropped; `None` where the slot is
    /// gone already.
    pub fn dropped(&mut self) -> (r: Option<Invocation>)
        ensures
            *final(self) == (RwReadHandle { gone: true, ..*old(self) }),
            r is None <==> old(self).gone,
            r matches Some(i) ==> i@ == read_release_call(
                old(self).key@,
                old(self).owner.token_text(),
                0,
            ),
    {
        if !self.mark_gone() {
            return None;
        }
        Some(
            Invocation::call(Script::RwReadRelease).key(self.key.as_str()).text(
                self.owner.token().as_str(),
            ).num(0),
        )
    }
}

/// A request for exclusive write access whose script call is still to be answered.
#[derive(Debug)]
pub struct PendingWrite {
    pub key: String,
    pub owner: OwnerId,
    pub ttl: Span,
}

impl PendingWrite {
    /// The call to send.
    pub fn invocation(&self) -> (r: Invocation)
        requires
            sendable(self.ttl@),
        ensures
            r@ == rw_acquire_call(
                Script::RwWriteAcquire,
                self.key@,
                self.owner.token_text(),
                self.ttl@,
            ),
    {
        rw_acquire_invocation(Script::RwWriteAcquire, self.key.as_str(), &self.owner, &self.ttl)
    }

    /// What the answer means: a status of 0 means that the key is held,
    /// any other is a grant.
    pub fn complete(self, reply: Result<(i64, i64), String>) -> (r: Result<RwWriteHandle, Error>)
        ensures
            match reply {
                Ok((status, fence)) => if status != 0 {
                    r matches Ok(h) && h.key@ == self.key@ && h.owner == self.owner && h.fence@
                        == fence as u64 && h.ttl == self.ttl && !h.gone
                } else {
                    r matches Err(e) && e@ == (ErrorV::Held { key: self.key@ })
                },
                Err(m) => r matches Err(e) && e@ == ErrorV::Backend(
                    "rw write-acquire failed: "@ + m@,
                ),
            },
    {
        match reply {
            Ok((status, fence)) => {
                if status != 0 {
                    Ok(
                        RwWriteHandle {
                            key: self.key,
                            owner: self.owner,
                            fence: FencingToken::new(fence as u64),
                            ttl: self.ttl,
                            gone: false,
                        },
                    )
                } else {
                    Err(held(self.key.as_str()))
                }
            },
            Err(m) => Err(backend("rw write-acquire failed: ", m.as_str())),
        }
    }
}

/// The writer slot.
#[derive(Debug)]
pub struct RwWriteHandle {
    pub key: String,
    pub owner: OwnerId,
    pub fence: FencingToken,
    pub ttl: Span,
    /// The slot was given back, or is known to be lost.
    pub gone: bool,
}

impl RwWriteHandle {
    /// The error of an operation on a slot that is no longer ours.
    pub open spec fn lost_error(self) -> ErrorV {
        ErrorV::Lost { key: self.key@, fence: self.fence@ }
    }

    /// The lock key.
    pub fn key(&self) -> (r: &str)
        ensures
            r@ == self.key@,
    {
        self.key.as_str()
    }

    /// Fence of the latest grant.
    pub fn fence(&self) -> (r: FencingToken)
        ensures
            r == self.fence,
    {
        self.fence
    }

    /// Claims the one release of this handle; false when it was claimed before.
    pub fn mark_gone(&mut self) -> (r: bool)
        ensures
            r == !old(self).gone,
            *final(self) == (RwWriteHandle { gone: true, ..*old(self) }),
    {
        let first = !self.gone;
        self.gone = true;
        first
    }

    /// Begins a renewal to `ttl`. It is sent once the fence counter is kept.
    pub fn extend(&self, ttl: &Span) -> (r: Result<LeaseCalls, Error>)
        ensures
            if ttl@ < min_ttl() {
                r matches Err(e) && e@ == ErrorV::InvalidConfig(below_floor("ttl "@, ttl@))
            } else if self.gone {
                r matches Err(e) && e@ == self.lost_error()
            } else {
                r matches Ok(c) && c.lease(
                    self.key@,
                    millis(ttl@) as u64,
                    rw_extend_call(self.key@, self.owner.token_text(), ttl@),
                )
            },
    {
        match validate_ttl(ttl) {
            Ok(()) => {},
            Err(e) => {
                return Err(e);
            },
        }
        if self.gone {
            return Err(lost(self.key.as_str(), self.fence.value()));
        }
        let key = self.key.as_str();
        let ms = ttl.as_millis();
        let lock = Invocation::call(Script::RwExtend).key(key).text(
            self.owner.token().as_str(),
        ).num(ms);
        Ok(LeaseCalls::new(key, ms, lock))
    }

    /// What the answer to [`RwWriteHandle::extend`] means. An answer that the
    /// lease is not ours makes the slot gone; no answer does not.
    pub fn extended(&mut self, reply: Result<i64, String>) -> (r: Result<(), Error>)
        ensures
            match reply {
                Ok(n) => if n < 0 {
                    &&& r matches Err(e) && e@ == old(self).lost_error()
                    &&& *final(self) == (RwWriteHandle { gone: true, ..*old(self) })
                } else {
                    r is Ok && *final(self) == *old(self)
                },
                Err(m) => {
                    &&& r matches Err(e) && e@ == ErrorV::Backend("rw extend failed: "@ + m@)
                    &&& *final(self) == *old(self)
                },
            },
    {
        if let Ok(n) = &reply {
            if *n < 0 {
                self.gone = true;
            }
        }
        hold_answer("rw extend failed: ", reply, self.key.as_str(), self.fence)
    }

    /// Begins to give the slot back: the call to send, or `None` where it is
    /// gone already, which counts as success.
    pub fn release(&mut self) -> (r: Option<Invocation>)
        ensures
            *final(self) == (RwWriteHandle { gone: true, ..*old(self) }),
            r is None <==> old(self).gone,
            r matches Some(i) ==> i@ == write_release_call(
                old(self).key@,
                old(self).owner.token_text(),
            ),
    {
        if !self.mark_gone() {
            return None;
        }
        Some(
            Invocation::call(Script::RwWriteRelease).key(self.key.as_str()).text(
                self.owner.token().as_str(),
            ),
        )
    }

    /// What the answer to [`RwWriteHandle::release`] means.
    pub fn release_answer(&self, reply: Result<i64, String>) -> (r: Result<(), Error>)
        ensures
            match reply {
                Ok(n) => if n < 0 {
                    r matches Err(e) && e@ == self.lost_error()
                } else {
                    r is Ok
                },
                Err(m) => r matches Err(e) && e@ == ErrorV::Backend(
                    "rw write-release failed: "@ + m@,
                ),
            },
    {
        hold_answer("rw write-release failed: ", reply, self.key.as_str(), self.fence)
    }

    /// The call to send when the handle is dropped; `None` where the slot is
    /// gone already.
    pub fn dropped(&mut self) -> (r: Option<Invocation>)
        ensures
            *final(self) == (RwWriteHandle { gone: true, ..*old(self) }),
            r is None <==> old(self).gone,
            r matches Some(i) ==> i@ == write_release_call(
                old(self).key@,
                old(self).owner.token_text(),
            ),
    {
        if !self.mark_gone() {
            return None;
        }
        Some(
            Invocation::call(Script::RwWriteRelease).key(self.key.as_str()).text(
                self.owner.token().as_str(),
            ),
        )
    }
}

impl RedisLockManager {
    /// Begins a request for shared read access to `key`, for a fresh owner.
    pub fn try_read(&self, key: &str, options: &LockOptions) -> (r: Result<PendingRead, Error>)
        ensures
            r is Ok <==> options.lease(self.default_ttl)@ >= min_ttl(),
            r matches Ok(p) ==> p.key@ == key@ && p.ttl == options.lease(self.default_ttl)
                && p.owner.minted(),
            r matches Err(e) ==> e@ == ErrorV::InvalidConfig(
                below_floor("ttl "@, options.lease(self.default_ttl)@),
            ),
    {
        self.try_read_as(key, OwnerId::generate(), options)
    }

    /// Begins a request for shared read access to `key`, for `owner`.
    pub fn try_read_as(&self, key: &str, owner: OwnerId, options: &LockOptions) -> (r: Result<
        PendingRead,
        Error,
    >)
        ensures
            r is Ok <==> options.lease(self.default_ttl)@ >= min_ttl(),
            r matches Ok(p) ==> p.key@ == key@ && p.owner == owner && p.ttl == options.lease(
                self.default_ttl,
            ),
            r matches Err(e) ==> e@ == ErrorV::InvalidConfig(
                below_floor("ttl "@, options.lease(self.default_ttl)@),
            ),
    {
        match options.checked_lease(self.default_ttl) {
            Ok(ttl) => Ok(PendingRead { key: key.to_owned(), owner, ttl }),
            Err(e) => Err(e),
        }
    }

    /// Begins a request for exclusive write access to `key`, for a fresh owner.
    pub fn try_write(&self, key: &str, options: &LockOptions) -> (r: Result<PendingWrite, Error>)
        ensures
            r is Ok <==> options.lease(self.default_ttl)@ >= min_ttl(),
            r matches Ok(p) ==> p.key@ == key@ && p.ttl == options.lease(self.default_ttl)
                && p.owner.minted(),
            r matches Err(e) ==> e@ == ErrorV::InvalidConfig(
                below_floor("ttl "@, options.lease(self.default_ttl)@),
            ),
    {
        self.try_write_as(key, OwnerId::generate(), options)
    }

    /// Begins a request for exclusive write access to `key`, for `owner`.
    pub fn try_write_as(&self, key: &str, owner: OwnerId, options: &LockOptions) -> (r: Result<
        PendingWrite,
        Error,
    >)
        ensures
            r is Ok <==> options.lease(self.default_ttl)@ >= min_ttl(),
            r matches Ok(p) ==> p.key@ == key@ && p.owner == owner && p.ttl == options.lease(
                self.default_ttl,
            ),
            r matches Err(e) ==> e@ == ErrorV::InvalidConfig(
                below_floor("ttl "@, options.lease(self.default_ttl)@),
            ),
    {
        match options.checked_lease(self.default_ttl) {
            Ok(ttl) => Ok(PendingWrite { key: key.to_owned(), owner, ttl }),
            Err(e) => Err(e),
        }
    }

    /// Begins a wait for shared read access to `key` at `now`.
    pub fn try_read_for(&self, key: &str, wait: &Span, now: u128) -> (r: Waiting)
        ensures
            r.key@ == key@,
            r.deadline == end_of_wait(now, wait@),
            !r.clipped,
    {
        Waiting::start(key, wait, now)
    }

    /// Begins a wait for exclusive write access to `key` at `now`.
    pub fn try_write_for(&self, key: &str, wait: &Span, now: u128) -> (r: Waiting)
        ensures
            r.key@ == key@,
            r.deadline == end_of_wait(now, wait@),
            !r.clipped,
    {
        Waiting::start(key, wait, now)
    }
}

} // verus!
