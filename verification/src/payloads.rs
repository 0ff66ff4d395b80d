//! Requests and responses of the web demo.

use vstd::prelude::*;

verus! {

/// `POST /api/lock` body.
#[derive(Debug)]
pub struct AcquireRequest {
    /// Key to compete for.
    pub key: String,
    /// Lease in milliseconds; 4 s where it is missing, at most 60 s.
    pub ttl_ms: Option<u64>,
    /// Automatic renewal; off where it is missing, so that expiry shows.
    pub watchdog: Option<bool>,
    /// `cowardly`, `balanced` or `aggressive`.
    pub safety_policy: Option<String>,
    /// Session to bind the grant to; an unknown one undoes the grant.
    pub session_token: Option<String>,
}

/// `POST /api/lock` outcome.
#[derive(Debug)]
pub enum LockOutcome {
    /// The caller now owns the key through `token`.
    Granted { key: String, token: String, fence: u64, ttl_ms: u64 },
    /// Someone else holds the key.
    Held { key: String },
}

/// `POST /api/unlock` body.
#[derive(Debug)]
pub struct ReleaseRequest {
    pub key: String,
    /// Owner token of the grant.
    pub token: String,
}

/// `POST /api/unlock` outcome.
#[derive(Clone, Copy, Debug, PartialEq, Eq, Structural)]
pub enum UnlockOutcome {
    Released,
    /// The token no longer owns the key.
    Lost,
}

/// `GET /api/describe/{key}` response.
#[derive(Clone, Copy, Debug, PartialEq, Eq, Structural)]
pub struct DescribeResponse {
    pub held: bool,
    /// Fence counter of the latest grant.
    pub version: u64,
    /// Remaining milliseconds; 0 when free.
    pub ttl_ms: u64,
}

/// `GET /api/locks` query.
#[derive(Debug)]
pub struct ListQuery {
    pub prefix: Option<String>,
}

/// One entry of `GET /api/locks`.
#[derive(Debug)]
pub struct KeyEntry {
    pub key: String,
    /// Remaining milliseconds.
    pub ttl_ms: u64,
}

/// `GET /api/locks` response.
#[derive(Debug)]
pub struct ListLocksResponse {
    pub prefix: String,
    pub locks: Vec<KeyEntry>,
}

/// `POST /api/extend` body.
#[derive(Debug)]
pub struct ExtendRequest {
    pub key: String,
    pub token: String,
    /// New lease in milliseconds.
    pub ttl_ms: u64,
}

/// `POST /api/extend` outcome.
#[derive(Clone, Copy, Debug, PartialEq, Eq, Structural)]
pub enum ExtendOutcome {
    Extended,
    /// The token no longer owns the key.
    Lost,
}

/// `POST /api/force-unlock` body.
#[derive(Debug)]
pub struct ForceUnlockRequest {
    /// Key to delete without asking who owns it.
    pub key: String,
}

/// `POST /api/force-unlock` response.
#[derive(Clone, Copy, Debug, PartialEq, Eq, Structural)]
pub struct ForceUnlockResponse {
    /// A held key was deleted.
    pub released: bool,
}

/// `POST /api/reentrant/acquire` body.
#[derive(Debug)]
pub struct ReentrantAcquireRequest {
    pub key: String,
    pub ttl_ms: Option<u64>,
    /// Owner of an earlier acquisition, which enters again freely; a new owner
    /// where it is missing.
    pub owner_id: Option<String>,
}

/// `POST /api/reentrant/acquire` response.
#[derive(Debug)]
pub struct ReentrantAcquireResponse {
    pub owner_id: String,
    pub fence: u64,
}

/// `POST /api/reentrant/release` body.
#[derive(Debug)]
pub struct ReentrantReleaseRequest {
    pub key: String,
    pub owner_id: String,
    /// Give every hold back instead of one.
    pub all: Option<bool>,
}

/// The response of every release by handle.
#[derive(Clone, Copy, Debug, PartialEq, Eq, Structural)]
pub struct ReleasedResponse {
    /// A live handle was found and released.
    pub released: bool,
}

/// `POST /api/rw/read`, `/api/rw/write` and `/api/fair/lock` body.
#[derive(Debug)]
pub struct RwAcquireRequest {
    pub key: String,
    pub ttl_ms: Option<u64>,
}

/// `POST /api/rw/*` outcome.
#[derive(Clone, Copy, Debug, PartialEq, Eq, Structural)]
pub enum RwOutcome {
    Acquired { fence: u64 },
    /// Others hold the key in a way that does not go together.
    Held,
}

/// `POST /api/rw/release` body.
#[derive(Debug)]
pub struct RwReleaseRequest {
    pub key: String,
    pub fence: u64,
    /// `read` or `write`.
    pub mode: String,
}

/// `POST /api/semaphore/acquire` body.
#[derive(Debug)]
pub struct SemaphoreAcquireRequest {
    pub key: String,
    /// Capacity; the first creator's counts.
    pub max_permits: u32,
    pub ttl_ms: Option<u64>,
}

/// `POST /api/semaphore/acquire` outcome.
#[derive(Clone, Copy, Debug, PartialEq, Eq, Structural)]
pub enum SemaphoreOutcome {
    Acquired { fence: u64 },
    /// Every permit is taken.
    Full,
}

/// `POST /api/semaphore/release` and `/api/fair/release` body.
#[derive(Debug)]
pub struct FenceReleaseRequest {
    pub key: String,
    pub fence: u64,
}

/// `POST /api/fair/lock` response.
#[derive(Debug)]
pub struct FairAcquireResponse {
    pub owner: String,
    pub fence: u64,
}

/// `POST /api/multi/lock` body.
#[derive(Debug)]
pub struct MultiAcquireRequest {
    pub keys: Vec<String>,
    pub ttl_ms: Option<u64>,
    /// How long to wait in all, in milliseconds; 2000 where it is missing.
    pub wait_ms: Option<u64>,
}

/// One key of a multi-lock.
#[derive(Debug)]
pub struct MultiKeyFence {
    pub key: String,
    pub fence: u64,
}

/// `POST /api/multi/lock` outcome.
#[derive(Debug)]
pub enum MultiOutcome {
    /// All keys are held; `locks` in the order of acquisition.
    Acquired { multi_id: String, locks: Vec<MultiKeyFence> },
    /// Not all keys could be had in time, and none is held.
    Timeout,
}

/// `POST /api/multi/release` body.
#[derive(Debug)]
pub struct MultiReleaseRequest {
    pub multi_id: String,
}

/// `POST /api/latch/create` body.
#[derive(Debug)]
pub struct LatchCreateRequest {
    pub key: String,
    /// First count; the first creator's counts.
    pub count: u32,
}

/// `POST /api/latch/count-down` body; for sessions, `key` is the token.
#[derive(Debug)]
pub struct LatchKeyRequest {
    pub key: String,
}

/// What remains of a latch.
#[derive(Clone, Copy, Debug, PartialEq, Eq, Structural)]
pub struct LatchCountResponse {
    pub count: u64,
}

/// `POST /api/latch/wait` body.
#[derive(Debug)]
pub struct LatchWaitRequest {
    pub key: String,
    /// How long to wait in milliseconds; 5000 where it is missing.
    pub timeout_ms: Option<u64>,
}

/// `POST /api/latch/wait` response.
#[derive(Clone, Copy, Debug, PartialEq, Eq, Structural)]
pub struct LatchWaitResponse {
    /// The latch reached zero in time.
    pub zero: bool,
}

/// One predicate of `POST /api/semantic/acquire`.
#[derive(Debug)]
pub struct PredicateSpec {
    pub field: String,
    /// `eq`, `gt` or `absent`.
    pub op: String,
    /// What to compare with, for `eq`.
    pub value: Option<String>,
    /// The value in decimal digits, for `gt`; missing where the value is
    /// missing or is no number.
    pub number: Option<String>,
}

/// `POST /api/semantic/acquire` body.
#[derive(Debug)]
pub struct SemanticAcquireRequest {
    pub key: String,
    pub ttl_ms: Option<u64>,
    pub predicates: Vec<PredicateSpec>,
}

/// `POST /api/semantic/acquire` outcome.
#[derive(Debug)]
pub enum SemanticOutcome {
    /// Every predicate held at the grant.
    Granted { token: String, fence: u64 },
    /// Someone holds the key.
    Held,
    /// The key is free but a predicate failed.
    PredicatesFailed,
}

/// `POST /api/semantic/data` body.
#[derive(Debug)]
pub struct SemanticDataRequest {
    /// Key of the protected hash.
    pub key: String,
    pub field: String,
    pub value: String,
}

/// `GET /api/semantic/data/{key}` response.
#[derive(Debug)]
pub struct SemanticDataResponse {
    /// The fields of the protected hash with their values.
    pub fields: Vec<(String, String)>,
}

/// `POST /api/testament/set` body.
#[derive(Debug)]
pub struct TestamentSetRequest {
    pub key: String,
    pub token: String,
    /// How long the testament is kept, in milliseconds.
    pub ttl_ms: Option<u64>,
    pub payload: String,
}

/// `POST /api/testament/set` response.
#[derive(Clone, Copy, Debug, PartialEq, Eq, Structural)]
pub struct TestamentSetResponse {
    pub stored: bool,
}

/// `GET /api/testament/{key}` response.
#[derive(Debug)]
pub struct TestamentReadResponse {
    /// What the previous holder left, if anything.
    pub payload: Option<String>,
}

/// `POST /api/session/register` body.
#[derive(Debug)]
pub struct SessionRegisterRequest {
    pub client_id: String,
    /// Lease of the session in milliseconds; 10000 where it is missing.
    pub ttl_ms: Option<u64>,
}

/// `POST /api/session/register` response.
#[derive(Debug)]
pub struct SessionRegisterResponse {
    pub session_token: String,
    pub ttl_ms: u64,
}

/// `POST /api/session/heartbeat` response.
#[derive(Clone, Copy, Debug, PartialEq, Eq, Structural)]
pub enum SessionHeartbeatOutcome {
    Accepted,
    /// It came sooner than a twentieth of the lease.
    RateLimited,
    /// There is no such session, or it was swept.
    Unknown,
}

/// `POST /api/session/close` response.
#[derive(Clone, Copy, Debug, PartialEq, Eq, Structural)]
pub struct SessionCloseResponse {
    /// How many bound locks were released.
    pub released_locks: u32,
}

} // verus!
