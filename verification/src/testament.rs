//! The lock testament: state that a dying holder leaves to its successor.
//!
//! A holder may store payload bytes bound to its lock and token. A successor
//! that acquires the same key reads them. An explicit release deletes them.

use vstd::prelude::*;

use crate::command::{call, ArgV, Invocation, InvocationV, ProgramV, Script};
use crate::error::{backend, lost, Error, ErrorV};
use crate::single::{Farewell, RedisLockManager};
use crate::span::{millis, Span};

verus! {

/// Where the will of `key` is kept.
pub open spec fn will_key(key: Seq<char>) -> Seq<char> {
    key + ":will"@
}

fn will_key_for(key: &str) -> (r: String)
    ensures
        r@ == will_key(key@),
{
    key.to_owned().concat(":will")
}

/// The script call that stores `payload` while `token` owns `key`.
pub open spec fn set_will_call(
    key: Seq<char>,
    token: Seq<char>,
    ttl: nat,
    payload: Seq<u8>,
) -> InvocationV {
    call(Script::WillSet).key(key).key(will_key(key)).text(token).bytes(payload).num(
        millis(ttl) as u64,
    )
}

/// The script call that reads the will of `key`, left by an earlier holder.
pub open spec fn read_will_call(key: Seq<char>) -> InvocationV {
    call(Script::WillGet).key(key).key(will_key(key))
}

/// The script call that deletes the will of `key` while `token` owns it.
pub open spec fn clear_will_call(key: Seq<char>, token: Seq<char>) -> InvocationV {
    call(Script::WillDel).key(key).key(will_key(key)).text(token)
}

/// Deletes the will of `key` while `token` owns it.
pub fn clear_will_invocation(key: &str, token: &str) -> (r: Invocation)
    ensures
        r@ == clear_will_call(key@, token@),
{
    Invocation::call(Script::WillDel).key(key).key(will_key_for(key).as_str()).text(token)
}

impl RedisLockManager {
    /// Begins to store `payload` as the will of `key`, kept for `ttl`. The
    /// store refuses it unless `token` owns the lock.
    pub fn set_testament(&self, key: &str, token: &str, ttl: &Span, payload: Vec<u8>) -> (r:
        Invocation)
        ensures
            r@ == set_will_call(key@, token@, ttl@, payload@),
    {
        Invocation::call(Script::WillSet).key(key).key(will_key_for(key).as_str()).text(
            token,
        ).bytes(payload).num(ttl.as_millis())
    }

    /// What the answer to [`RedisLockManager::set_testament`] means.
    pub fn testament_set(&self, key: &str, reply: Result<i64, String>) -> (r: Result<(), Error>)
        ensures
            match reply {
                Ok(n) => if n == 1 {
                    r is Ok
                } else {
                    r matches Err(e) && e@ == (ErrorV::Lost { key: key@, fence: 0 })
                },
                Err(m) => r matches Err(e) && e@ == ErrorV::Backend(
                    "testament set failed: "@ + m@,
                ),
            },
    {
        match reply {
            Ok(n) => if n == 1 {
                Ok(())
            } else {
                Err(lost(key, 0))
            },
            Err(m) => Err(backend("testament set failed: ", m.as_str())),
        }
    }

    /// Asks for the will of `key`. The store tells it once a successor holds
    /// the lock: not while it is free, nor while the one that left the will
    /// still holds it.
    pub fn read_testament(&self, key: &str) -> (r: Invocation)
        ensures
            r@ == read_will_call(key@),
    {
        Invocation::call(Script::WillGet).key(key).key(will_key_for(key).as_str())
    }

    /// What the answer to [`RedisLockManager::read_testament`] means: the
    /// payload, or nothing where no will is left.
    pub fn testament_read(&self, reply: Result<Option<Vec<u8>>, String>) -> (r: Result<
        Option<Vec<u8>>,
        Error,
    >)
        ensures
            match reply {
                Ok(v) => r == Ok::<Option<Vec<u8>>, Error>(v),
                Err(m) => r matches Err(e) && e@ == ErrorV::Backend(
                    "testament read failed: "@ + m@,
                ),
            },
    {
        match reply {
            Ok(v) => Ok(v),
            Err(m) => Err(backend("testament read failed: ", m.as_str())),
        }
    }

    /// Begins to delete the will of `key` while `token` owns it.
    pub fn clear_testament(&self, key: &str, token: &str) -> (r: Invocation)
        ensures
            r@ == clear_will_call(key@, token@),
    {
        clear_will_invocation(key, token)
    }

    /// What the answer to [`RedisLockManager::clear_testament`] means: any
    /// answer is a success.
    pub fn testament_cleared(&self, reply: Result<i64, String>) -> (r: Result<(), Error>)
        ensures
            match reply {
                Ok(_) => r is Ok,
                Err(m) => r matches Err(e) && e@ == ErrorV::Backend(
                    "testament clear failed: "@ + m@,
                ),
            },
    {
        match reply {
            Ok(_) => Ok(()),
            Err(m) => Err(backend("testament clear failed: ", m.as_str())),
        }
    }
}

/// Who holds a lock.
pub enum Holder {
    /// Nobody: it is free.
    Nobody,
    /// A mutex or a fair lock, under this token.
    Plain(Seq<char>),
    /// A reentrant or a read-write lock.
    Other,
}

/// What the store keeps of one lock: who holds it, and the will that was left
/// for it with the token that left it.
pub struct Estate {
    pub holder: Holder,
    pub will: Option<(Seq<char>, Seq<u8>)>,
}

/// What is kept after the call `c`, by the texts of the scripts that store and
/// delete wills. The time for which a will is kept is left out: a will that
/// expired is as one that was deleted.
pub open spec fn bequeathed(e: Estate, c: InvocationV) -> Estate {
    match c.program {
        ProgramV::Known(Script::WillSet) => match (c.args[0], c.args[1]) {
            (ArgV::Text(token), ArgV::Bytes(payload)) => if e.holder == Holder::Plain(token) {
                Estate { will: Some((token, payload)), ..e }
            } else {
                e
            },
            _ => e,
        },
        ProgramV::Known(Script::WillDel) => match c.args[0] {
            ArgV::Text(token) => if e.holder == Holder::Plain(token) {
                Estate { will: None, ..e }
            } else {
                e
            },
            _ => e,
        },
        _ => e,
    }
}

/// What the script that reads wills answers with, by its text.
pub open spec fn inherited(e: Estate) -> Option<Seq<u8>> {
    match (e.holder, e.will) {
        (Holder::Nobody, _) => None,
        (_, None) => None,
        (Holder::Plain(token), Some((left_by, payload))) => if token == left_by {
            None
        } else {
            Some(payload)
        },
        (Holder::Other, Some((_, payload))) => Some(payload),
    }
}

/// A will reaches the successor: what a holder stored is read once another holds
/// the lock, and neither before nor between.
pub proof fn wills_reach_the_successor(
    e: Estate,
    key: Seq<char>,
    token: Seq<char>,
    ttl: nat,
    payload: Seq<u8>,
    successor: Holder,
)
    requires
        e.holder == Holder::Plain(token),
    ensures
        ({
            let left = bequeathed(e, set_will_call(key, token, ttl, payload));
            let after = Estate { holder: successor, ..left };
            &&& inherited(left) is None
            &&& inherited(after) == (if successor == Holder::Nobody || successor == Holder::Plain(
                token,
            ) {
                None
            } else {
                Some(payload)
            })
        }),
{
    let c = set_will_call(key, token, ttl, payload);
    assert(c.args[0] == ArgV::Text(token) && c.args[1] == ArgV::Bytes(payload));
}

/// A graceful release leaves no will: once the calls of a release were sent
/// under the token that holds the lock, nothing that was stored can be read,
/// whoever holds the lock next.
pub proof fn released_wills_are_gone(
    e: Estate,
    key: Seq<char>,
    token: Seq<char>,
    farewell: Farewell,
    next: Holder,
)
    requires
        e.holder == Holder::Plain(token),
        farewell.bids(key, token),
    ensures
        inherited(Estate { holder: next, ..bequeathed(e, farewell.clear_will@) }) is None,
{
    assert(clear_will_call(key, token).args[0] == ArgV::Text(token));
}

/// Only the holder disposes of a will: under any other token a will is neither
/// stored nor deleted.
pub proof fn wills_need_ownership(
    e: Estate,
    key: Seq<char>,
    token: Seq<char>,
    ttl: nat,
    payload: Seq<u8>,
)
    requires
        e.holder != Holder::Plain(token),
    ensures
        bequeathed(e, set_will_call(key, token, ttl, payload)) == e,
        bequeathed(e, clear_will_call(key, token)) == e,
{
    assert(set_will_call(key, token, ttl, payload).args[0] == ArgV::Text(token));
    assert(clear_will_call(key, token).args[0] == ArgV::Text(token));
}

} // verus!
