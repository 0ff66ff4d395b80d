//! Waiting for a contended key: what to do after each attempt.
//!
//! Times are read off one clock that counts nanoseconds.

use vstd::prelude::*;

use crate::error::{timeout, Error, ErrorV};
use crate::span::Span;

verus! {

/// Poll cadence while waiting for a contended lock, in milliseconds.
pub const POLL_INTERVAL_MS: u64 = 20;

/// The poll cadence in nanoseconds.
pub open spec fn poll_interval() -> nat {
    20_000_000
}

/// What follows an attempt.
#[derive(Debug)]
pub enum PollStep<H> {
    /// The wait is over with this result.
    Done(Result<H, Error>),
    /// Try again after this long.
    Sleep(Span),
}

/// An attempt that ends the wait whatever the time: a grant, or a failure
/// other than contention.
pub open spec fn settled<H>(attempt: Result<H, Error>) -> bool {
    match attempt {
        Ok(_) => true,
        Err(e) => !(e@ is Held),
    }
}

/// The moment a wait of `wait` nanoseconds that starts at `now` ends; `None`
/// where it lies beyond the clock's range, so that the wait has no end.
pub open spec fn end_of_wait(now: u128, wait: nat) -> Option<u128> {
    if now + wait <= u128::MAX {
        Some((now + wait) as u128)
    } else {
        None
    }
}

/// The moment a wait that starts at `now` ends.
pub fn deadline_after(now: u128, wait: &Span) -> (r: Option<u128>)
    ensures
        r == end_of_wait(now, wait@),
{
    now.checked_add(wait.as_nanos())
}

/// A wait for one key.
#[derive(Debug)]
pub struct Waiting {
    pub key: String,
    /// When the wait runs out; `None` for never.
    pub deadline: Option<u128>,
    /// Sleeps end at the deadline at the latest.
    pub clipped: bool,
}

/// How long a contended waiter sleeps at `now`; `None` where its wait is over.
pub open spec fn nap(deadline: Option<u128>, clipped: bool, now: u128) -> Option<nat> {
    match deadline {
        Some(d) => if d <= now {
            None
        } else if clipped && d - now < poll_interval() {
            Some((d - now) as nat)
        } else {
            Some(poll_interval())
        },
        None => Some(poll_interval()),
    }
}

impl Waiting {
    /// A wait for `key` that starts at `now` and sleeps whole poll intervals.
    pub fn start(key: &str, wait: &Span, now: u128) -> (r: Self)
        ensures
            r.key@ == key@,
            r.deadline == end_of_wait(now, wait@),
            !r.clipped,
    {
        Waiting { key: key.to_owned(), deadline: deadline_after(now, wait), clipped: false }
    }

    /// A wait for `key` that starts at `now` and never sleeps past its end.
    pub fn start_clipped(key: &str, wait: &Span, now: u128) -> (r: Self)
        ensures
            r.key@ == key@,
            r.deadline == end_of_wait(now, wait@),
            r.clipped,
    {
        Waiting { key: key.to_owned(), deadline: deadline_after(now, wait), clipped: true }
    }

    /// How long to sleep at `now`; `None` where the wait is over.
    pub fn sleep_at(&self, now: u128) -> (r: Option<Span>)
        ensures
            match nap(self.deadline, self.clipped, now) {
                None => r is None,
                Some(n) => r matches Some(s) && s@ == n,
            },
    {
        match self.deadline {
            Some(d) => {
                if d <= now {
                    return None;
                }
                let remaining: u128 = d - now;
                if self.clipped && remaining < 20_000_000 {
                    Some(Span::new(0, remaining as u32))
                } else {
                    Some(Span::from_millis(POLL_INTERVAL_MS))
                }
            },
            None => Some(Span::from_millis(POLL_INTERVAL_MS)),
        }
    }

    /// What follows an attempt that ended at `now`. A grant, or a failure other
    /// than contention, ends the wait; contention after the deadline is a
    /// timeout; contention before it means another attempt after a sleep.
    pub fn after<H>(&self, attempt: Result<H, Error>, now: u128) -> (r: PollStep<H>)
        ensures
            settled(attempt) ==> r == PollStep::Done(attempt),
            !settled(attempt) ==> match nap(self.deadline, self.clipped, now) {
                None => r matches PollStep::Done(Err(e)) && e@ == (ErrorV::Timeout {
                    key: self.key@,
                }),
                Some(n) => r matches PollStep::Sleep(s) && s@ == n,
            },
    {
        match attempt {
            Ok(h) => PollStep::Done(Ok(h)),
            Err(e) => {
                if !e.is_held() {
                    return PollStep::Done(Err(e));
                }
                match self.sleep_at(now) {
                    Some(s) => PollStep::Sleep(s),
                    None => PollStep::Done(Err(timeout(self.key.as_str()))),
                }
            },
        }
    }
}

/// A sleep lengthened by chance: by less than one poll interval.
pub open spec fn jittered(n: nat, chance: u64) -> nat {
    n + (chance as nat) % poll_interval()
}

impl Waiting {
    /// Like [`Waiting::after`], but every sleep is lengthened by `chance`, so
    /// that rivals do not retry in step.
    pub fn after_jittered<H>(&self, attempt: Result<H, Error>, now: u128, chance: u64) -> (r:
        PollStep<H>)
        ensures
            settled(attempt) ==> r == PollStep::Done(attempt),
            !settled(attempt) ==> match nap(self.deadline, self.clipped, now) {
                None => r matches PollStep::Done(Err(e)) && e@ == (ErrorV::Timeout {
                    key: self.key@,
                }),
                Some(n) => r matches PollStep::Sleep(s) && s@ == jittered(n, chance),
            },
    {
        match self.after(attempt, now) {
            PollStep::Done(r) => PollStep::Done(r),
            PollStep::Sleep(s) => {
                proof {
                    naps_are_short(self.deadline, self.clipped, now);
                }
                let n: u128 = s.as_nanos() + (chance % 20_000_000) as u128;
                PollStep::Sleep(Span::new(0, n as u32))
            },
        }
    }
}

/// A clipped wait never sleeps past its deadline, and no wait sleeps longer
/// than the poll interval or not at all.
pub proof fn naps_are_short(deadline: Option<u128>, clipped: bool, now: u128)
    ensures
        nap(deadline, clipped, now) matches Some(n) ==> 0 < n <= poll_interval() && (clipped ==> (
        deadline matches Some(d) ==> now + n <= d)),
{
}

} // verus!
