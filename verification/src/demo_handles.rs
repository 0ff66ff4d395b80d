//! The web demo's locks that are released through handles: reentrant,
//! read-write, semaphore, fair and multi-locks.

use vstd::prelude::*;

use crate::command::{texts, Invocation};
use crate::demo::{api_error, bad_request, clamp_ttl, clamped, fenced_name, holds, ms,
    owned_name, rw_map_key, ApiError, ApiErrorV, DemoState, LiveHandles, SemaphorePermit};
use crate::error::{Error, ErrorV};
use crate::fair::{FairLockHandle, PendingFair};
use crate::fencing::FencingToken;
use crate::leases::LeaseCalls;
use crate::multi::{first_fault, multi_fault, unreleased, MultiAcquire, MultiLockHandle,
    MultiRelease};
use crate::options::{min_ttl, LockOptions, SafetyPolicy};
use crate::owner::{parsed_uuid, OwnerId};
use crate::payloads::{FairAcquireResponse, FenceReleaseRequest, MultiAcquireRequest,
    MultiKeyFence, MultiOutcome, MultiReleaseRequest, ReentrantAcquireRequest,
    ReentrantAcquireResponse, ReentrantReleaseRequest, ReleasedResponse, RwAcquireRequest,
    RwOutcome, RwReleaseRequest, SemaphoreAcquireRequest, SemaphoreOutcome};
use crate::poll::end_of_wait;
use crate::reentrant::{release_all_call, release_one_call, PendingReentrant, ReentrantLockHandle};
use crate::rwlock::{read_release_call, write_release_call, PendingRead, PendingWrite, RwReadHandle,
    RwWriteHandle};
use crate::single::{sendable, RedisLockHandle};
use crate::span::Span;
use crate::text::same;

verus! {

/// The longest wait that a request may ask for, in milliseconds.
pub const MAX_WAIT_MS: u64 = 30_000;

/// The wait of a request in milliseconds: `default` where none is asked, at
/// most 30 s.
pub open spec fn capped_wait(wait_ms: Option<u64>, default: u64) -> nat {
    let asked: nat = match wait_ms {
        Some(n) => n as nat,
        None => default as nat,
    };
    if asked < 30_000 {
        asked
    } else {
        30_000
    }
}

/// The wait of a request.
pub fn clamp_wait(wait_ms: Option<u64>, default: u64) -> (r: Span)
    ensures
        r@ == ms(capped_wait(wait_ms, default)),
{
    let asked: u64 = match wait_ms {
        Some(n) => n,
        None => default,
    };
    Span::from_millis(
        if asked < MAX_WAIT_MS {
            asked
        } else {
            MAX_WAIT_MS
        },
    )
}

/// A hold that is given back: the handle, and the call to send unless the hold
/// was gone already.
#[derive(Debug)]
pub struct HoldRelease {
    pub handle: ReentrantLockHandle,
    pub all: bool,
    pub call: Option<Invocation>,
}

/// A slot of a read-write lock that is given back.
#[derive(Debug)]
pub enum RwRelease {
    /// No such handle is kept.
    Absent,
    Read(RwReadHandle, Option<LeaseCalls>),
    Write(RwWriteHandle, Option<Invocation>),
}

/// The refusal of a mode other than `read` and `write`.
pub open spec fn bad_mode(mode: Seq<char>) -> ApiErrorV {
    bad_request("mode must be `read` or `write`, got `"@ + mode + "`"@)
}

/// The refusal of an owner that is no UUID.
pub open spec fn bad_owner(id: Seq<char>) -> ApiErrorV {
    bad_request("owner_id `"@ + id + "` is not a valid uuid"@)
}

/// How a release by handle is answered when the lock operation came out so.
fn release_response(done: Result<(), Error>) -> (r: Result<ReleasedResponse, ApiError>)
    ensures
        match done {
            Ok(()) => r == Ok::<ReleasedResponse, ApiError>(ReleasedResponse { released: true }),
            Err(e) => r matches Err(a) && a@ == api_error(e@),
        },
{
    match done {
        Ok(()) => Ok(ReleasedResponse { released: true }),
        Err(e) => Err(ApiError::from_error(&e)),
    }
}

/// `o` gives the lease of a request and nothing else.
pub open spec fn plainly(ttl_ms: Option<u64>, o: LockOptions) -> bool {
    &&& o.ttl matches Some(ttl) && ttl@ == ms(clamped(ttl_ms)) && ttl@ >= min_ttl() && sendable(
        ttl@,
    )
    &&& o.watchdog is None
    &&& o.safety_policy == SafetyPolicy::Balanced
}

/// Options with the lease of a request and nothing else set.
fn plain_options(ttl_ms: Option<u64>) -> (r: LockOptions)
    ensures
        plainly(ttl_ms, r),
{
    LockOptions::new().with_ttl(clamp_ttl(ttl_ms))
}

impl DemoState {
    /// `POST /api/reentrant/acquire`: begins the acquisition, for the owner
    /// that the request names or for a fresh one.
    pub fn reentrant_acquire(&self, req: &ReentrantAcquireRequest) -> (r: Result<
        PendingReentrant,
        ApiError,
    >)
        ensures
            match req.owner_id {
                Some(id) => match parsed_uuid(id@) {
                    Some(bits) => r matches Ok(p) && p.owner == (OwnerId { bits }),
                    None => r matches Err(e) && e@ == bad_owner(id@),
                },
                None => r matches Ok(p) && p.owner.minted(),
            },
            r matches Ok(p) ==> p.key@ == req.key@ && p.ttl@ == ms(clamped(req.ttl_ms))
                && sendable(p.ttl@),
    {
        let options = plain_options(req.ttl_ms);
        let owner = match &req.owner_id {
            Some(id) => match OwnerId::parse(id.as_str()) {
                Some(owner) => owner,
                None => {
                    return Err(
                        ApiError::bad_request(
                            "owner_id `".to_owned().concat(id.as_str()).concat(
                                "` is not a valid uuid",
                            ),
                        ),
                    );
                },
            },
            None => OwnerId::generate(),
        };
        match self.manager.try_lock_reentrant(req.key.as_str(), owner, &options) {
            Ok(p) => Ok(p),
            Err(e) => Err(ApiError::from_error(&e)),
        }
    }

    /// `POST /api/reentrant/acquire`: the answer. Each entry of an owner is one
    /// more hold, kept until it is given back.
    pub fn reentrant_acquired(
        &mut self,
        req: &ReentrantAcquireRequest,
        attempt: Result<ReentrantLockHandle, Error>,
    ) -> (r: Result<ReentrantAcquireResponse, ApiError>)
        ensures
            final(self).manager == old(self).manager,
            final(self).sessions == old(self).sessions,
            final(self).live == (LiveHandles {
                reentrant: final(self).live.reentrant,
                ..old(self).live
            }),
            match attempt {
                Ok(h) => {
                    &&& r matches Ok(a) && a.owner_id@ == h.owner.token_text() && a.fence == h.fence@
                    &&& forall|name: Seq<char>| #[trigger]
                        holds(final(self).live.reentrant@, name) == if name == owned_name(
                            req.key@,
                            h.owner.token_text(),
                        ) {
                            holds(old(self).live.reentrant@, name).push(h)
                        } else {
                            holds(old(self).live.reentrant@, name)
                        }
                },
                Err(e) => {
                    &&& r matches Err(a) && a@ == api_error(e@)
                    &&& final(self).live.reentrant@ == old(self).live.reentrant@
                },
            },
    {
        let h = match attempt {
            Ok(h) => h,
            Err(e) => {
                return Err(ApiError::from_error(&e));
            },
        };
        let owner_id = h.owner.token();
        let fence: u64 = h.fence.value();
        let name = req.key.clone().concat("|").concat(owner_id.as_str());
        let mut kept = match self.live.reentrant.remove(name.as_str()) {
            Some(v) => v,
            None => Vec::new(),
        };
        proof {
            assert(kept@ =~= holds(old(self).live.reentrant@, name@));
        }
        kept.push(h);
        self.live.reentrant.insert(name, kept);
        Ok(ReentrantAcquireResponse { owner_id, fence })
    }

    /// `POST /api/reentrant/release`: takes out what is given back: the latest
    /// hold of the owner, or all of them. `None` where there is none.
    pub fn reentrant_release(&mut self, req: &ReentrantReleaseRequest) -> (r: Option<HoldRelease>)
        ensures
            final(self).manager == old(self).manager,
            final(self).sessions == old(self).sessions,
            final(self).live == (LiveHandles {
                reentrant: final(self).live.reentrant,
                ..old(self).live
            }),
            ({
                let name = owned_name(req.key@, req.owner_id@);
                let before = holds(old(self).live.reentrant@, name);
                let all = req.all == Some(true);
                &&& r is None <==> before.len() == 0
                &&& forall|n: Seq<char>| #[trigger]
                    holds(final(self).live.reentrant@, n) == if n == name && before.len() > 0 {
                        if all {
                            seq![]
                        } else {
                            before.drop_last()
                        }
                    } else {
                        holds(old(self).live.reentrant@, n)
                    }
                &&& r matches Some(rel) ==> {
                    let h = before.last();
                    &&& rel.all == all
                    &&& rel.handle == (ReentrantLockHandle { gone: true, ..h })
                    &&& rel.call is None <==> h.gone
                    &&& rel.call matches Some(i) ==> i@ == if all {
                        release_all_call(h.key@, h.owner.token_text())
                    } else {
                        release_one_call(h.key@, h.owner.token_text())
                    }
                }
            }),
    {
        let name = req.key.clone().concat("|").concat(req.owner_id.as_str());
        let ghost was = self.live.reentrant@;
        let mut kept = match self.live.reentrant.remove(name.as_str()) {
            Some(v) => v,
            None => {
                proof {
                    assert(self.live.reentrant@ =~= was);
                }
                return None;
            },
        };
        let all = match req.all {
            Some(b) => b,
            None => false,
        };
        let ghost before = kept@;
        match kept.pop() {
            None => None,
            Some(h) => {
                let mut h = h;
                let call = if all {
                    h.release_all()
                } else {
                    h.release_one()
                };
                if !all && kept.len() > 0 {
                    self.live.reentrant.insert(name, kept);
                } else {
                    proof {
                        assert(!all ==> before.drop_last() =~= seq![]);
                    }
                }
                Some(HoldRelease { handle: h, all, call })
            },
        }
    }

    /// `POST /api/reentrant/release`: the answer, given the store's reply to the
    /// call, if one was sent.
    pub fn reentrant_released(
        &self,
        release: Option<&HoldRelease>,
        reply: Option<Result<i64, String>>,
    ) -> (r: Result<ReleasedResponse, ApiError>)
        ensures
            match (release, reply) {
                (None, _) => r == Ok::<ReleasedResponse, ApiError>(
                    ReleasedResponse { released: false },
                ),
                (Some(_), None) => r == Ok::<ReleasedResponse, ApiError>(
                    ReleasedResponse { released: true },
                ),
                (Some(rel), Some(Ok(n))) => if n < 0 {
                    r matches Err(e) && e@ == api_error(rel.handle.lost_error())
                } else {
                    r == Ok::<ReleasedResponse, ApiError>(ReleasedResponse { released: true })
                },
                (Some(rel), Some(Err(m))) => r matches Err(e) && e@ == api_error(
                    ErrorV::Backend(
                        (if rel.all {
                            "reentrant release-all failed: "@
                        } else {
                            "reentrant release failed: "@
                        }) + m@,
                    ),
                ),
            },
    {
        match release {
            None => Ok(ReleasedResponse { released: false }),
            Some(rel) => match reply {
                None => Ok(ReleasedResponse { released: true }),
                Some(reply) => release_response(
                    if rel.all {
                        rel.handle.released_all(reply)
                    } else {
                        rel.handle.released_one(reply)
                    },
                ),
            },
        }
    }

    /// `POST /api/rw/read`: begins the request.
    pub fn rw_read(&self, req: &RwAcquireRequest) -> (r: Result<PendingRead, ApiError>)
        ensures
            r matches Ok(p) && p.key@ == req.key@ && p.ttl@ == ms(clamped(req.ttl_ms))
                && sendable(p.ttl@) && p.owner.minted(),
    {
        match self.manager.try_read(req.key.as_str(), &plain_options(req.ttl_ms)) {
            Ok(p) => Ok(p),
            Err(e) => Err(ApiError::from_error(&e)),
        }
    }

    /// `POST /api/rw/read`: the answer, and the call that drops a slot which
    /// was kept under the same name.
    pub fn rw_read_acquired(
        &mut self,
        req: &RwAcquireRequest,
        attempt: Result<RwReadHandle, Error>,
    ) -> (r: (Result<RwOutcome, ApiError>, Option<Invocation>))
        ensures
            final(self).manager == old(self).manager,
            final(self).sessions == old(self).sessions,
            final(self).live == (LiveHandles {
                rw_read: final(self).live.rw_read,
                ..old(self).live
            }),
            match attempt {
                Ok(h) => {
                    let name = fenced_name(req.key@, h.fence@);
                    let before = old(self).live.rw_read@;
                    &&& r.0 == Ok::<RwOutcome, ApiError>(RwOutcome::Acquired { fence: h.fence@ })
                    &&& final(self).live.rw_read@ == before.insert(name, h)
                    &&& r.1 is Some <==> before.dom().contains(name) && !before[name].gone
                    &&& r.1 matches Some(i) ==> i@ == read_release_call(
                        before[name].key@,
                        before[name].owner.token_text(),
                        0,
                    )
                },
                Err(e) => {
                    &&& final(self).live.rw_read@ == old(self).live.rw_read@
                    &&& r.1 is None
                    &&& if e@ is Held {
                        r.0 == Ok::<RwOutcome, ApiError>(RwOutcome::Held)
                    } else {
                        r.0 matches Err(a) && a@ == api_error(e@)
                    }
                },
            },
    {
        match attempt {
            Ok(h) => {
                let fence: u64 = h.fence.value();
                let displaced = self.live.rw_read.insert(rw_map_key(req.key.as_str(), fence), h);
                let call = match displaced {
                    Some(d) => {
                        let mut d = d;
                        d.dropped()
                    },
                    None => None,
                };
                (Ok(RwOutcome::Acquired { fence }), call)
            },
            Err(e) => if e.is_held() {
                (Ok(RwOutcome::Held), None)
            } else {
                (Err(ApiError::from_error(&e)), None)
            },
        }
    }

    /// `POST /api/rw/write`: begins the request.
    pub fn rw_write(&self, req: &RwAcquireRequest) -> (r: Result<PendingWrite, ApiError>)
        ensures
            r matches Ok(p) && p.key@ == req.key@ && p.ttl@ == ms(clamped(req.ttl_ms))
                && sendable(p.ttl@) && p.owner.minted(),
    {
        match self.manager.try_write(req.key.as_str(), &plain_options(req.ttl_ms)) {
            Ok(p) => Ok(p),
            Err(e) => Err(ApiError::from_error(&e)),
        }
    }

    /// `POST /api/rw/write`: the answer, and the call that drops a slot which
    /// was kept under the same name.
    pub fn rw_write_acquired(
        &mut self,
        req: &RwAcquireRequest,
        attempt: Result<RwWriteHandle, Error>,
    ) -> (r: (Result<RwOutcome, ApiError>, Option<Invocation>))
        ensures
            final(self).manager == old(self).manager,
            final(self).sessions == old(self).sessions,
            final(self).live == (LiveHandles {
                rw_write: final(self).live.rw_write,
                ..old(self).live
            }),
            match attempt {
                Ok(h) => {
                    let name = fenced_name(req.key@, h.fence@);
                    let before = old(self).live.rw_write@;
                    &&& r.0 == Ok::<RwOutcome, ApiError>(RwOutcome::Acquired { fence: h.fence@ })
                    &&& final(self).live.rw_write@ == before.insert(name, h)
                    &&& r.1 is Some <==> before.dom().contains(name) && !before[name].gone
                    &&& r.1 matches Some(i) ==> i@ == write_release_call(
                        before[name].key@,
                        before[name].owner.token_text(),
                    )
                },
                Err(e) => {
                    &&& final(self).live.rw_write@ == old(self).live.rw_write@
                    &&& r.1 is None
                    &&& if e@ is Held {
                        r.0 == Ok::<RwOutcome, ApiError>(RwOutcome::Held)
                    } else {
                        r.0 matches Err(a) && a@ == api_error(e@)
                    }
                },
            },
    {
        match attempt {
            Ok(h) => {
                let fence: u64 = h.fence.value();
                let displaced = self.live.rw_write.insert(rw_map_key(req.key.as_str(), fence), h);
                let call = match displaced {
                    Some(d) => {
                        let mut d = d;
                        d.dropped()
                    },
                    None => None,
                };
                (Ok(RwOutcome::Acquired { fence }), call)
            },
            Err(e) => if e.is_held() {
                (Ok(RwOutcome::Held), None)
            } else {
                (Err(ApiError::from_error(&e)), None)
            },
        }
    }

    /// `POST /api/rw/release`: takes out the slot that is given back.
    pub fn rw_release(&mut self, req: &RwReleaseRequest) -> (r: Result<RwRelease, ApiError>)
        ensures
            final(self).manager == old(self).manager,
            final(self).sessions == old(self).sessions,
            final(self).live == (LiveHandles {
                rw_read: final(self).live.rw_read,
                rw_write: final(self).live.rw_write,
                ..old(self).live
            }),
            ({
                let name = fenced_name(req.key@, req.fence);
                let readers = old(self).live.rw_read@;
                let writers = old(self).live.rw_write@;
                if req.mode@ == "read"@ {
                    &&& final(self).live.rw_read@ == readers.remove(name)
                    &&& final(self).live.rw_write@ == writers
                    &&& if readers.dom().contains(name) {
                        let h = readers[name];
                        &&& r matches Ok(RwRelease::Read(g, call)) && g == (RwReadHandle {
                            gone: true,
                            ..h
                        }) && (call is None <==> h.gone) && (call matches Some(c) ==> h.leaves(c))
                    } else {
                        r matches Ok(RwRelease::Absent)
                    }
                } else if req.mode@ == "write"@ {
                    &&& final(self).live.rw_write@ == writers.remove(name)
                    &&& final(self).live.rw_read@ == readers
                    &&& if writers.dom().contains(name) {
                        let h = writers[name];
                        &&& r matches Ok(RwRelease::Write(g, call)) && g == (RwWriteHandle {
                            gone: true,
                            ..h
                        }) && (call is None <==> h.gone) && (call matches Some(i) ==> i@
                            == write_release_call(h.key@, h.owner.token_text()))
                    } else {
                        r matches Ok(RwRelease::Absent)
                    }
                } else {
                    &&& final(self).live.rw_read@ == readers
                    &&& final(self).live.rw_write@ == writers
                    &&& r matches Err(e) && e@ == bad_mode(req.mode@)
                }
            }),
    {
        let name = rw_map_key(req.key.as_str(), req.fence);
        if same(req.mode.as_str(), "read") {
            match self.live.rw_read.remove(name.as_str()) {
                Some(h) => {
                    let mut h = h;
                    let call = h.release();
                    Ok(RwRelease::Read(h, call))
                },
                None => Ok(RwRelease::Absent),
            }
        } else if same(req.mode.as_str(), "write") {
            match self.live.rw_write.remove(name.as_str()) {
                Some(h) => {
                    let mut h = h;
                    let call = h.release();
                    Ok(RwRelease::Write(h, call))
                },
                None => Ok(RwRelease::Absent),
            }
        } else {
            Err(
                ApiError::bad_request(
                    "mode must be `read` or `write`, got `".to_owned().concat(
                        req.mode.as_str(),
                    ).concat("`"),
                ),
            )
        }
    }

    /// `POST /api/rw/release`: the answer, given the store's reply to the call,
    /// if one was sent.
    pub fn rw_released(&self, release: &RwRelease, reply: Option<Result<i64, String>>) -> (r:
        Result<ReleasedResponse, ApiError>)
        ensures
            match (release, reply) {
                (RwRelease::Absent, _) => r == Ok::<ReleasedResponse, ApiError>(
                    ReleasedResponse { released: false },
                ),
                (_, None) => r == Ok::<ReleasedResponse, ApiError>(
                    ReleasedResponse { released: true },
                ),
                (RwRelease::Read(h, _), Some(Ok(n))) => if n < 0 {
                    r matches Err(e) && e@ == api_error(h.lost_error())
                } else {
                    r == Ok::<ReleasedResponse, ApiError>(ReleasedResponse { released: true })
                },
                (RwRelease::Write(h, _), Some(Ok(n))) => if n < 0 {
                    r matches Err(e) && e@ == api_error(h.lost_error())
                } else {
                    r == Ok::<ReleasedResponse, ApiError>(ReleasedResponse { released: true })
                },
                (RwRelease::Read(_, _), Some(Err(m))) => r matches Err(e) && e@ == api_error(
                    ErrorV::Backend("rw read-release failed: "@ + m@),
                ),
                (RwRelease::Write(_, _), Some(Err(m))) => r matches Err(e) && e@ == api_error(
                    ErrorV::Backend("rw write-release failed: "@ + m@),
                ),
            },
    {
        match release {
            RwRelease::Absent => Ok(ReleasedResponse { released: false }),
            RwRelease::Read(h, _) => match reply {
                None => Ok(ReleasedResponse { released: true }),
                Some(reply) => release_response(h.release_answer(reply)),
            },
            RwRelease::Write(h, _) => match reply {
                None => Ok(ReleasedResponse { released: true }),
                Some(reply) => release_response(h.release_answer(reply)),
            },
        }
    }

    /// `POST /api/semaphore/acquire`: the options under which a permit is asked
    /// for.
    pub fn semaphore_acquire(&self, req: &SemaphoreAcquireRequest) -> (r: LockOptions)
        ensures
            plainly(req.ttl_ms, r),
    {
        plain_options(req.ttl_ms)
    }

    /// `POST /api/semaphore/acquire`: the answer, given the fence of the permit
    /// or why there was none, and a permit which was kept under the same name
    /// and is to be dropped.
    pub fn semaphore_acquired(
        &mut self,
        req: &SemaphoreAcquireRequest,
        attempt: Result<FencingToken, Error>,
    ) -> (r: (Result<SemaphoreOutcome, ApiError>, Option<SemaphorePermit>))
        ensures
            final(self).manager == old(self).manager,
            final(self).sessions == old(self).sessions,
            final(self).live == (LiveHandles {
                permits: final(self).live.permits,
                ..old(self).live
            }),
            match attempt {
                Ok(f) => {
                    let name = fenced_name(req.key@, f@);
                    let before = old(self).live.permits@;
                    let after = final(self).live.permits@;
                    &&& r.0 == Ok::<SemaphoreOutcome, ApiError>(
                        SemaphoreOutcome::Acquired { fence: f@ },
                    )
                    &&& after == before.insert(name, after[name])
                    &&& after[name].key@ == req.key@
                    &&& after[name].fence == f
                    &&& r.1 is Some <==> before.dom().contains(name)
                    &&& r.1 matches Some(d) ==> d == before[name]
                },
                Err(e) => {
                    &&& final(self).live.permits@ == old(self).live.permits@
                    &&& r.1 is None
                    &&& if e@ is Held {
                        r.0 == Ok::<SemaphoreOutcome, ApiError>(SemaphoreOutcome::Full)
                    } else {
                        r.0 matches Err(a) && a@ == api_error(e@)
                    }
                },
            },
    {
        match attempt {
            Ok(f) => {
                let fence: u64 = f.value();
                let displaced = self.live.permits.insert(
                    rw_map_key(req.key.as_str(), fence),
                    SemaphorePermit { key: req.key.clone(), fence: f },
                );
                (Ok(SemaphoreOutcome::Acquired { fence }), displaced)
            },
            Err(e) => if e.is_held() {
                (Ok(SemaphoreOutcome::Full), None)
            } else {
                (Err(ApiError::from_error(&e)), None)
            },
        }
    }

    /// `POST /api/semaphore/release`: takes out the permit that is given back.
    /// `None` where it is not kept.
    pub fn semaphore_release(&mut self, req: &FenceReleaseRequest) -> (r: Option<SemaphorePermit>)
        ensures
            final(self).manager == old(self).manager,
            final(self).sessions == old(self).sessions,
            final(self).live == (LiveHandles {
                permits: final(self).live.permits,
                ..old(self).live
            }),
            ({
                let name = fenced_name(req.key@, req.fence);
                let before = old(self).live.permits@;
                &&& final(self).live.permits@ == before.remove(name)
                &&& r is Some <==> before.dom().contains(name)
                &&& r matches Some(p) ==> p == before[name]
            }),
    {
        self.live.permits.remove(rw_map_key(req.key.as_str(), req.fence).as_str())
    }

    /// `POST /api/semaphore/release`: the answer, given how giving the permit
    /// back went, if one was kept.
    pub fn semaphore_released(&self, done: Option<Result<(), Error>>) -> (r: Result<
        ReleasedResponse,
        ApiError,
    >)
        ensures
            match done {
                None => r == Ok::<ReleasedResponse, ApiError>(
                    ReleasedResponse { released: false },
                ),
                Some(Ok(())) => r == Ok::<ReleasedResponse, ApiError>(
                    ReleasedResponse { released: true },
                ),
                Some(Err(e)) => r matches Err(a) && a@ == api_error(e@),
            },
    {
        match done {
            None => Ok(ReleasedResponse { released: false }),
            Some(done) => release_response(done),
        }
    }

    /// `POST /api/fair/lock`: begins the acquisition.
    pub fn fair_lock(&self, req: &RwAcquireRequest) -> (r: Result<PendingFair, ApiError>)
        ensures
            r matches Ok(p) && p.key@ == req.key@ && p.ttl@ == ms(clamped(req.ttl_ms))
                && sendable(p.ttl@) && p.owner.minted(),
    {
        match self.manager.try_lock_fair(req.key.as_str(), &plain_options(req.ttl_ms)) {
            Ok(p) => Ok(p),
            Err(e) => Err(ApiError::from_error(&e)),
        }
    }

    /// `POST /api/fair/lock`: the answer, and the call that drops a lock which
    /// was kept under the same name.
    pub fn fair_locked(
        &mut self,
        req: &RwAcquireRequest,
        attempt: Result<FairLockHandle, Error>,
    ) -> (r: (Result<FairAcquireResponse, ApiError>, Option<LeaseCalls>))
        ensures
            final(self).manager == old(self).manager,
            final(self).sessions == old(self).sessions,
            final(self).live == (LiveHandles {
                fair: final(self).live.fair,
                ..old(self).live
            }),
            match attempt {
                Ok(h) => {
                    let name = fenced_name(req.key@, h.fence@);
                    let before = old(self).live.fair@;
                    &&& r.0 matches Ok(a) && a.owner@ == h.owner.token_text() && a.fence == h.fence@
                    &&& final(self).live.fair@ == before.insert(name, h)
                    &&& r.1 is Some <==> before.dom().contains(name) && !before[name].gone
                    &&& r.1 matches Some(c) ==> before[name].hands_over(c)
                },
                Err(e) => {
                    &&& final(self).live.fair@ == old(self).live.fair@
                    &&& r.1 is None
                    &&& r.0 matches Err(a) && a@ == api_error(e@)
                },
            },
    {
        match attempt {
            Ok(h) => {
                let owner = h.owner.token();
                let fence: u64 = h.fence.value();
                let displaced = self.live.fair.insert(rw_map_key(req.key.as_str(), fence), h);
                let call = match displaced {
                    Some(d) => {
                        let mut d = d;
                        d.dropped()
                    },
                    None => None,
                };
                (Ok(FairAcquireResponse { owner, fence }), call)
            },
            Err(e) => (Err(ApiError::from_error(&e)), None),
        }
    }

    /// `POST /api/fair/release`: takes out the lock that is released, and what
    /// to send unless it was gone already. `None` where it is not kept.
    pub fn fair_release(&mut self, req: &FenceReleaseRequest) -> (r: Option<
        (FairLockHandle, Option<LeaseCalls>),
    >)
        ensures
            final(self).manager == old(self).manager,
            final(self).sessions == old(self).sessions,
            final(self).live == (LiveHandles {
                fair: final(self).live.fair,
                ..old(self).live
            }),
            ({
                let name = fenced_name(req.key@, req.fence);
                let before = old(self).live.fair@;
                &&& final(self).live.fair@ == before.remove(name)
                &&& r is Some <==> before.dom().contains(name)
                &&& r matches Some((g, call)) ==> g == (FairLockHandle {
                    gone: true,
                    ..before[name]
                }) && (call is None <==> before[name].gone) && (call matches Some(c) ==> before[name].hands_over(
                    c,
                ))
            }),
    {
        match self.live.fair.remove(rw_map_key(req.key.as_str(), req.fence).as_str()) {
            Some(h) => {
                let mut h = h;
                let call = h.release();
                Some((h, call))
            },
            None => None,
        }
    }

    /// `POST /api/fair/release`: the answer, given the store's reply to the
    /// call, if one was sent.
    pub fn fair_released(
        &self,
        handle: Option<&FairLockHandle>,
        reply: Option<Result<i64, String>>,
    ) -> (r: Result<ReleasedResponse, ApiError>)
        ensures
            match (handle, reply) {
                (None, _) => r == Ok::<ReleasedResponse, ApiError>(
                    ReleasedResponse { released: false },
                ),
                (Some(_), None) => r == Ok::<ReleasedResponse, ApiError>(
                    ReleasedResponse { released: true },
                ),
                (Some(h), Some(Ok(n))) => if n < 0 {
                    r matches Err(e) && e@ == api_error(h.lost_error())
                } else {
                    r == Ok::<ReleasedResponse, ApiError>(ReleasedResponse { released: true })
                },
                (Some(_), Some(Err(m))) => r matches Err(e) && e@ == api_error(
                    ErrorV::Backend("fair release failed: "@ + m@),
                ),
            },
    {
        match handle {
            None => Ok(ReleasedResponse { released: false }),
            Some(h) => match reply {
                None => Ok(ReleasedResponse { released: true }),
                Some(reply) => release_response(h.release_answer(reply)),
            },
        }
    }

    /// `POST /api/multi/lock`: begins the acquisition at `now`.
    pub fn multi_lock(&self, req: &MultiAcquireRequest, now: u128) -> (r: Result<
        MultiAcquire,
        ApiError,
    >)
        ensures
            match multi_request_fault(*req) {
                Some(fault) => r matches Err(e) && e@ == fault,
                None => r matches Ok(m) && m.wf() && m.taken@.len() == 0 && texts(
                    m.sorted@,
                ).to_multiset() == texts(req.keys@).to_multiset() && plainly(
                    req.ttl_ms,
                    m.options,
                ) && m.waiting.deadline == end_of_wait(
                    now,
                    ms(capped_wait(req.wait_ms, 2_000)),
                ) && !m.waiting.clipped,
            },
    {
        if req.keys.len() == 0 {
            return Err(ApiError::bad_request("keys must not be empty".to_owned()));
        }
        let options = plain_options(req.ttl_ms);
        let wait = clamp_wait(req.wait_ms, 2_000);
        match self.manager.try_lock_all(&req.keys, &options, &wait, now) {
            Ok(m) => Ok(m),
            Err(e) => Err(ApiError::from_error(&e)),
        }
    }

    /// `POST /api/multi/lock`: the answer, the multi-lock kept under a fresh
    /// identity.
    pub fn multi_locked(&mut self, attempt: Result<MultiLockHandle, Error>) -> (r: Result<
        MultiOutcome,
        ApiError,
    >)
        ensures
            final(self).manager == old(self).manager,
            final(self).sessions == old(self).sessions,
            final(self).live == (LiveHandles {
                multi: final(self).live.multi,
                ..old(self).live
            }),
            match attempt {
                Ok(h) => r matches Ok(MultiOutcome::Acquired { multi_id, locks })
                    && final(self).live.multi@ == old(self).live.multi@.insert(multi_id@, h)
                    && locks_of(h, locks@) && exists|owner: OwnerId|
                    owner.minted() && multi_id@ == #[trigger] owner.token_text(),
                Err(e) => {
                    &&& final(self).live.multi@ == old(self).live.multi@
                    &&& if e@ is Timeout {
                        r matches Ok(MultiOutcome::Timeout)
                    } else {
                        r matches Err(a) && a@ == api_error(e@)
                    }
                },
            },
    {
        self.multi_locked_as(OwnerId::generate(), attempt)
    }

    /// `POST /api/multi/lock`: the answer, the multi-lock kept under the
    /// identity `id`.
    pub fn multi_locked_as(&mut self, id: OwnerId, attempt: Result<MultiLockHandle, Error>) -> (r:
        Result<MultiOutcome, ApiError>)
        ensures
            final(self).manager == old(self).manager,
            final(self).sessions == old(self).sessions,
            final(self).live == (LiveHandles {
                multi: final(self).live.multi,
                ..old(self).live
            }),
            match attempt {
                Ok(h) => r matches Ok(MultiOutcome::Acquired { multi_id, locks }) && multi_id@
                    == id.token_text() && final(self).live.multi@ == old(self).live.multi@.insert(
                    multi_id@,
                    h,
                ) && locks_of(h, locks@),
                Err(e) => {
                    &&& final(self).live.multi@ == old(self).live.multi@
                    &&& if e@ is Timeout {
                        r matches Ok(MultiOutcome::Timeout)
                    } else {
                        r matches Err(a) && a@ == api_error(e@)
                    }
                },
            },
    {
        let handle = match attempt {
            Ok(h) => h,
            Err(e) => {
                return match &e {
                    Error::Timeout { .. } => Ok(MultiOutcome::Timeout),
                    _ => Err(ApiError::from_error(&e)),
                };
            },
        };
        let keys = handle.keys();
        let fences = handle.fences();
        let mut locks: Vec<MultiKeyFence> = Vec::new();
        let mut i: usize = 0;
        proof {
            assert(texts(keys@).len() == handle.handles@.len());
        }
        while i < keys.len()
            invariant
                0 <= i <= keys@.len(),
                keys@.len() == handle.handles@.len(),
                fences@.len() == handle.handles@.len(),
                texts(keys@) == handle.held_keys(),
                fences@ == handle.handles@.map_values(|h: RedisLockHandle| h.fence),
                locks@.len() == i,
                forall|j: int|
                    0 <= j < i ==> (#[trigger] locks@[j]).key@ == handle.handles@[j].key@
                        && locks@[j].fence == handle.handles@[j].fence@,
            decreases keys@.len() - i,
        {
            proof {
                assert(keys@[i as int]@ == texts(keys@)[i as int]);
            }
            locks.push(MultiKeyFence { key: keys[i].clone(), fence: fences[i].value() });
            i += 1;
        }
        let multi_id = id.token();
        self.live.multi.insert(multi_id.clone(), handle);
        Ok(MultiOutcome::Acquired { multi_id, locks })
    }

    /// `POST /api/multi/release`: takes out the multi-lock that is released, and
    /// what to send. `None` where it is not kept.
    pub fn multi_release(&mut self, req: &MultiReleaseRequest) -> (r: Option<
        (MultiLockHandle, Vec<MultiRelease>),
    >)
        ensures
            final(self).manager == old(self).manager,
            final(self).sessions == old(self).sessions,
            final(self).live == (LiveHandles {
                multi: final(self).live.multi,
                ..old(self).live
            }),
            final(self).live.multi@ == old(self).live.multi@.remove(req.multi_id@),
            r is Some <==> old(self).live.multi@.dom().contains(req.multi_id@),
            r matches Some((h, sent)) ==> {
                let was = old(self).live.multi@[req.multi_id@];
                &&& h.handles@ == was.handles@.map_values(
                    |l: RedisLockHandle| RedisLockHandle { released: true, ..l },
                )
                &&& sent@.map_values(|m: MultiRelease| m.index as int) == unreleased(was.handles@)
                &&& forall|j: int|
                    0 <= j < sent@.len() ==> (#[trigger] sent@[j]).index < was.handles@.len()
                        && was.handles@[sent@[j].index as int].says_farewell(sent@[j].calls)
            },
    {
        match self.live.multi.remove(req.multi_id.as_str()) {
            Some(h) => {
                let mut h = h;
                let sent = h.release_all();
                Some((h, sent))
            },
            None => None,
        }
    }

    /// `POST /api/multi/release`: the answer, given the store's replies to the
    /// releases.
    pub fn multi_released(
        &self,
        handle: Option<&MultiLockHandle>,
        sent: &Vec<MultiRelease>,
        replies: Vec<Result<i64, String>>,
    ) -> (r: Result<ReleasedResponse, ApiError>)
        requires
            sent@.len() == replies@.len(),
            handle matches Some(h) ==> forall|j: int|
                0 <= j < sent@.len() ==> (#[trigger] sent@[j]).index < h.handles@.len(),
        ensures
            match handle {
                None => r == Ok::<ReleasedResponse, ApiError>(
                    ReleasedResponse { released: false },
                ),
                Some(h) => match first_fault(h.faults(sent@, replies@)) {
                    None => r == Ok::<ReleasedResponse, ApiError>(
                        ReleasedResponse { released: true },
                    ),
                    Some(e) => r matches Err(a) && a@ == api_error(e),
                },
            },
    {
        match handle {
            None => Ok(ReleasedResponse { released: false }),
            Some(h) => release_response(h.released_all(sent, replies)),
        }
    }
}

/// What is wrong with a request for a multi-lock, if anything.
pub open spec fn multi_request_fault(req: MultiAcquireRequest) -> Option<ApiErrorV> {
    if req.keys@.len() == 0 {
        Some(bad_request("keys must not be empty"@))
    } else {
        match multi_fault(texts(req.keys@), ms(clamped(req.ttl_ms))) {
            Some(e) => Some(api_error(e)),
            None => None,
        }
    }
}

/// `locks` lists the keys of `h` with their fences, in order.
pub open spec fn locks_of(h: MultiLockHandle, locks: Seq<MultiKeyFence>) -> bool {
    &&& locks.len() == h.handles@.len()
    &&& forall|i: int|
        0 <= i < locks.len() ==> (#[trigger] locks[i]).key@ == h.handles@[i].key@
            && locks[i].fence == h.handles@[i].fence@
}

} // verus!
