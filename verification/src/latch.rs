//! The countdown latch: waiters are let through once N parties have counted
//! down. The count never goes below zero, and of racing initialisers the first
//! wins.

use vstd::prelude::*;

use crate::command::{call, Invocation, InvocationV, Script};
use crate::error::{backend, invalid, lost, timeout, Error, ErrorV};
use crate::poll::{end_of_wait, nap, PollStep, Waiting};
use crate::span::Span;
use crate::text::{decimal, decimal_of};

verus! {

/// The script call that sets the latch `key` to `n` unless it exists.
pub open spec fn latch_init_call(key: Seq<char>, n: nat) -> InvocationV {
    call(Script::LatchInit).key(key).text(decimal(n))
}

/// The first count of a latch in decimal, which must be at least one.
fn initial_counts(n: u32) -> (r: Result<String, Error>)
    ensures
        r is Ok <==> n >= 1,
        r matches Ok(t) ==> t@ == decimal(n as nat),
        r matches Err(e) ==> e@ == ErrorV::InvalidConfig(
            "latch initial count must be at least 1"@,
        ),
{
    if n == 0 {
        return Err(invalid("latch initial count must be at least 1"));
    }
    Ok(decimal_of(n as u64))
}

/// A countdown latch bound to one key.
#[derive(Debug)]
pub struct RedisCountDownLatch {
    pub key: String,
}

impl RedisCountDownLatch {
    /// Begins to create the latch `key` with `initial_count`, unless it
    /// exists.
    pub fn create(key: &str, initial_count: u32) -> (r: Result<Invocation, Error>)
        ensures
            r is Ok <==> initial_count >= 1,
            r matches Ok(i) ==> i@ == latch_init_call(key@, initial_count as nat),
            r matches Err(e) ==> e@ == ErrorV::InvalidConfig(
                "latch initial count must be at least 1"@,
            ),
    {
        match initial_counts(initial_count) {
            Ok(count) => Ok(Invocation::call(Script::LatchInit).key(key).text(count.as_str())),
            Err(e) => Err(e),
        }
    }

    /// What the answer to [`RedisCountDownLatch::create`] means: the latch,
    /// whoever set it first.
    pub fn created(key: &str, reply: Result<i64, String>) -> (r: Result<Self, Error>)
        ensures
            match reply {
                Ok(_) => r matches Ok(l) && l.key@ == key@,
                Err(m) => r matches Err(e) && e@ == ErrorV::Backend("latch init failed: "@ + m@),
            },
    {
        match reply {
            Ok(_) => Ok(RedisCountDownLatch { key: key.to_owned() }),
            Err(m) => Err(backend("latch init failed: ", m.as_str())),
        }
    }

    /// The latch key.
    pub fn key(&self) -> (r: &str)
        ensures
            r@ == self.key@,
    {
        self.key.as_str()
    }

    /// Begins to take one off the count. The answer is what remains.
    pub fn count_down(&self) -> (r: Invocation)
        ensures
            r@ == call(Script::LatchCountDown).key(self.key@),
    {
        Invocation::call(Script::LatchCountDown).key(self.key.as_str())
    }

    /// Asks what remains of the count.
    pub fn count(&self) -> (r: Invocation)
        ensures
            r@ == call(Script::LatchGet).key(self.key@),
    {
        Invocation::call(Script::LatchGet).key(self.key.as_str())
    }

    /// What the answer to [`RedisCountDownLatch::count_down`] or
    /// [`RedisCountDownLatch::count`] means: the remaining count, where a
    /// negative one says that the latch is gone.
    pub fn eval_remaining(&self, reply: Result<i64, String>) -> (r: Result<u64, Error>)
        ensures
            match reply {
                Ok(v) => if v < 0 {
                    r matches Err(e) && e@ == (ErrorV::Lost { key: self.key@, fence: 0 })
                } else {
                    r == Ok::<u64, Error>(v as u64)
                },
                Err(m) => r matches Err(e) && e@ == ErrorV::Backend("latch op failed: "@ + m@),
            },
    {
        match reply {
            Ok(v) => if v < 0 {
                Err(lost(self.key.as_str(), 0))
            } else {
                Ok(v as u64)
            },
            Err(m) => Err(backend("latch op failed: ", m.as_str())),
        }
    }

    /// Begins a wait at `now` for the count to reach zero.
    pub fn wait_until_zero(&self, wait: &Span, now: u128) -> (r: LatchWait)
        ensures
            r.waiting.key@ == self.key@,
            r.waiting.deadline == end_of_wait(now, wait@),
            !r.waiting.clipped,
    {
        LatchWait { waiting: Waiting::start(self.key.as_str(), wait, now) }
    }
}

/// A wait for a latch.
#[derive(Debug)]
pub struct LatchWait {
    pub waiting: Waiting,
}

impl LatchWait {
    /// What follows when the remaining count was asked at `now`: zero ends the
    /// wait, and so does a failure; anything else is asked again after a sleep,
    /// or is a timeout once the wait has run out.
    pub fn after(&self, remaining: Result<u64, Error>, now: u128) -> (r: PollStep<()>)
        ensures
            match remaining {
                Ok(0) => r == PollStep::Done(Ok::<(), Error>(())),
                Ok(_) => match nap(self.waiting.deadline, self.waiting.clipped, now) {
                    None => r matches PollStep::Done(Err(e)) && e@ == (ErrorV::Timeout {
                        key: self.waiting.key@,
                    }),
                    Some(n) => r matches PollStep::Sleep(s) && s@ == n,
                },
                Err(e) => r == PollStep::Done(Err::<(), Error>(e)),
            },
    {
        match remaining {
            Ok(n) => if n == 0 {
                PollStep::Done(Ok(()))
            } else {
                match self.waiting.sleep_at(now) {
                    Some(s) => PollStep::Sleep(s),
                    None => PollStep::Done(Err(timeout(self.waiting.key.as_str()))),
                }
            },
            Err(e) => PollStep::Done(Err(e)),
        }
    }
}

} // verus!
