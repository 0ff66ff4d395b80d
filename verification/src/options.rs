//! Per-acquisition options.

use vstd::prelude::*;

use crate::error::{Error, ErrorV};
use crate::span::{span_text, Span};

verus! {

/// The shortest lease that is granted, in milliseconds.
pub const MIN_TTL_MS: u64 = 10;

/// The shortest lease in nanoseconds.
pub open spec fn min_ttl() -> nat {
    10_000_000
}

/// The shortest lease that is granted.
pub fn min_ttl_span() -> (r: Span)
    ensures
        r@ == min_ttl(),
{
    Span::from_millis(MIN_TTL_MS)
}

/// How much staleness a holder tolerates.
#[derive(Clone, Copy, Debug, PartialEq, Eq, Structural)]
pub enum SafetyPolicy {
    Cowardly,
    Balanced,
    Aggressive,
}

/// The text of a refusal of the lease `ttl`: `what`, the lease, and the floor.
pub open spec fn below_floor(what: Seq<char>, ttl: nat) -> Seq<char> {
    what + span_text(ttl) + " is below the "@ + span_text(min_ttl()) + " floor"@
}

/// Refuses a lease shorter than the floor.
pub fn check_floor(what: &str, ttl: &Span) -> (r: Result<(), Error>)
    ensures
        r is Ok <==> ttl@ >= min_ttl(),
        r matches Err(e) ==> e@ == ErrorV::InvalidConfig(below_floor(what@, ttl@)),
{
    let floor = min_ttl_span();
    if ttl.less_than(&floor) {
        Err(
            Error::InvalidConfig(
                what.to_owned().concat(ttl.debug_text().as_str()).concat(" is below the ").concat(
                    floor.debug_text().as_str(),
                ).concat(" floor"),
            ),
        )
    } else {
        Ok(())
    }
}

/// Options of one acquisition.
#[derive(Clone, Copy, Debug)]
pub struct LockOptions {
    /// Lease duration; the manager's default applies where this is `None`.
    pub ttl: Option<Span>,
    /// Automatic renewal; the manager decides where this is `None`.
    pub watchdog: Option<bool>,
    /// Staleness tolerance.
    pub safety_policy: SafetyPolicy,
}

impl Default for LockOptions {
    fn default() -> (r: Self)
        ensures
            r == (LockOptions {
                ttl: None,
                watchdog: None,
                safety_policy: SafetyPolicy::Balanced,
            }),
    {
        LockOptions::new()
    }
}

impl LockOptions {
    /// The lease that these options lead to under a manager whose default is
    /// `default`.
    pub open spec fn lease(self, default: Span) -> Span {
        match self.ttl {
            Some(ttl) => ttl,
            None => default,
        }
    }

    /// The manager's defaults, balanced.
    pub fn new() -> (r: Self)
        ensures
            r == (LockOptions {
                ttl: None,
                watchdog: None,
                safety_policy: SafetyPolicy::Balanced,
            }),
    {
        LockOptions { ttl: None, watchdog: None, safety_policy: SafetyPolicy::Balanced }
    }

    /// The same options with the lease `ttl`.
    pub fn with_ttl(self, ttl: Span) -> (r: Self)
        ensures
            r == (LockOptions { ttl: Some(ttl), ..self }),
    {
        LockOptions { ttl: Some(ttl), ..self }
    }

    /// The same options with automatic renewal set.
    pub fn with_watchdog(self, watchdog: bool) -> (r: Self)
        ensures
            r == (LockOptions { watchdog: Some(watchdog), ..self }),
    {
        LockOptions { watchdog: Some(watchdog), ..self }
    }

    /// The same options with the given staleness tolerance.
    pub fn with_safety_policy(self, safety_policy: SafetyPolicy) -> (r: Self)
        ensures
            r == (LockOptions { safety_policy, ..self }),
    {
        LockOptions { safety_policy, ..self }
    }

    /// The lease that these options lead to under a manager whose default is
    /// `default`.
    pub fn lease_or(&self, default: Span) -> (r: Span)
        ensures
            r == self.lease(default),
    {
        match self.ttl {
            Some(ttl) => ttl,
            None => default,
        }
    }

    /// The lease of [`LockOptions::lease_or`], refused below the floor.
    pub fn checked_lease(&self, default: Span) -> (r: Result<Span, Error>)
        ensures
            r is Ok <==> self.lease(default)@ >= min_ttl(),
            r matches Ok(ttl) ==> ttl == self.lease(default),
            r matches Err(e) ==> e@ == ErrorV::InvalidConfig(
                below_floor("ttl "@, self.lease(default)@),
            ),
    {
        let ttl = self.lease_or(default);
        match check_floor("ttl ", &ttl) {
            Ok(()) => Ok(ttl),
            Err(e) => Err(e),
        }
    }
}

} // verus!
