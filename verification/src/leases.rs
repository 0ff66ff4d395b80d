//! How long fence counters live.
//!
//! A counter must not expire while its lock could still be held. Most scripts
//! are handed the lease of the counter with that of the lock. The others know
//! nothing of the counter: before one of them gives a lock a lease, the counter
//! is kept long enough by a call of its own, which never shortens its life.

use vstd::prelude::*;

use crate::command::{call, ArgV, Invocation, InvocationV, Script};
use crate::fair::{fair_acquire_call, fair_release_call};
use crate::reentrant::{reentrant_acquire_call, reentrant_extend_call};
use crate::rwlock::{read_release_call, rw_acquire_call, rw_extend_call};
use crate::semantic::{semantic_call, PredicateV};
use crate::single::{acquire_call, extend_call, fence_key, fence_key_for, sendable};
use crate::span::millis;

verus! {

/// The lease of the counter of a lock with a lease of `ms` milliseconds: ten
/// times as long, or as long where the store could not count that far.
pub open spec fn fence_lease(ms: u64) -> u64 {
    if ms * 10 <= i64::MAX {
        (ms * 10) as u64
    } else {
        ms
    }
}

/// The lease of the counter of a lock with a lease of `ms` milliseconds.
pub fn fence_lease_of(ms: u64) -> (r: u64)
    ensures
        r == fence_lease(ms),
{
    if ms <= 922_337_203_685_477_580 {
        ms * 10
    } else {
        ms
    }
}

/// The script call that keeps the counter of `key` for a lease of `ms`
/// milliseconds.
pub open spec fn keep_fence_call(key: Seq<char>, ms: u64) -> InvocationV {
    call(Script::FenceKeep).key(fence_key(key)).num(fence_lease(ms))
}

/// What is sent to give a lock a lease by a script that knows nothing of its
/// counter, in order.
#[derive(Debug)]
pub struct LeaseCalls {
    /// Keeps the counter.
    pub keep: Invocation,
    /// Gives the lease.
    pub lock: Invocation,
}

impl LeaseCalls {
    /// These calls keep the counter of `key` for a lease of `ms` milliseconds
    /// and then send `lock`.
    pub open spec fn lease(self, key: Seq<char>, ms: u64, lock: InvocationV) -> bool {
        self.keep@ == keep_fence_call(key, ms) && self.lock@ == lock
    }

    /// Keeps the counter of `key` for a lease of `ms` milliseconds before `lock`
    /// is sent.
    pub fn new(key: &str, ms: u64, lock: Invocation) -> (r: Self)
        ensures
            r.lease(key@, ms, lock@),
    {
        let keep = Invocation::call(Script::FenceKeep).key(fence_key_for(key).as_str()).num(
            fence_lease_of(ms),
        );
        LeaseCalls { keep, lock }
    }
}

/// The call `c` hands over the counter of `key` and a lease for it that is no
/// shorter than the lease of the lock.
pub open spec fn keeps_fence(c: InvocationV, key: Seq<char>) -> bool {
    &&& c.keys.contains(fence_key(key))
    &&& c.args[1] matches ArgV::Int(lease) && c.args[2] matches ArgV::Int(fence) && lease <= fence
}

/// The call `keep` hands over the counter of `key` and a lease for it that is no
/// shorter than the one that the call `c` gives the lock.
pub open spec fn keeps_fence_for(keep: InvocationV, c: InvocationV, key: Seq<char>) -> bool {
    &&& keep.keys == seq![fence_key(key)]
    &&& c.args[1] matches ArgV::Int(lease) && keep.args[0] matches ArgV::Int(fence) && lease
        <= fence
}

/// A fence counter never expires while its lock could still be held: whenever a
/// lock of any kind is granted, renewed or handed on, its counter is kept at
/// least as long, by the same call or by the one that is sent before it.
pub proof fn fences_outlive_their_locks(
    key: Seq<char>,
    token: Seq<char>,
    ttl: nat,
    ps: Seq<PredicateV>,
    left: u64,
)
    requires
        sendable(ttl),
    ensures
        keeps_fence(acquire_call(key, token, ttl), key),
        keeps_fence(extend_call(key, token, ttl), key),
        keeps_fence(reentrant_acquire_call(key, token, ttl), key),
        keeps_fence(rw_acquire_call(Script::RwReadAcquire, key, token, ttl), key),
        keeps_fence(rw_acquire_call(Script::RwWriteAcquire, key, token, ttl), key),
        keeps_fence(fair_acquire_call(key, token, ttl), key),
        keeps_fence(semantic_call(key, ps, token, ttl), key),
        ({
            let keep = keep_fence_call(key, millis(ttl) as u64);
            &&& keeps_fence_for(keep, reentrant_extend_call(key, token, ttl), key)
            &&& keeps_fence_for(keep, rw_extend_call(key, token, ttl), key)
        }),
        keeps_fence_for(keep_fence_call(key, left), read_release_call(key, token, left), key),
        keeps_fence_for(keep_fence_call(key, 30_000), fair_release_call(key, token), key),
{
    assert(acquire_call(key, token, ttl).keys[1] == fence_key(key));
    assert(extend_call(key, token, ttl).keys[1] == fence_key(key));
    assert(reentrant_acquire_call(key, token, ttl).keys[1] == fence_key(key));
    assert(rw_acquire_call(Script::RwReadAcquire, key, token, ttl).keys[1] == fence_key(key));
    assert(rw_acquire_call(Script::RwWriteAcquire, key, token, ttl).keys[1] == fence_key(key));
    assert(fair_acquire_call(key, token, ttl).keys[2] == fence_key(key));
    assert(semantic_call(key, ps, token, ttl).keys[1] == fence_key(key));
    assert(keep_fence_call(key, millis(ttl) as u64).keys =~= seq![fence_key(key)]);
    assert(keep_fence_call(key, left).keys =~= seq![fence_key(key)]);
    assert(keep_fence_call(key, 30_000).keys =~= seq![fence_key(key)]);
}

} // verus!
