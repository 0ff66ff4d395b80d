//! Fencing tokens: numbers by which a downstream store refuses stale holders.

use vstd::prelude::*;

verus! {

/// The number that came with a grant. A later grant of the same key carries a
/// greater number.
#[derive(Clone, Copy, Debug, PartialEq, Eq, Structural)]
pub struct FencingToken {
    value: u64,
}

impl View for FencingToken {
    type V = u64;

    closed spec fn view(&self) -> u64 {
        self.value
    }
}

impl FencingToken {
    /// The token with the given number.
    pub fn new(value: u64) -> (r: Self)
        ensures
            r@ == value,
    {
        FencingToken { value }
    }

    /// The token that every granted token supersedes.
    pub fn zero() -> (r: Self)
        ensures
            r@ == 0,
    {
        FencingToken { value: 0 }
    }

    /// The number.
    pub fn value(&self) -> (r: u64)
        ensures
            r == self@,
    {
        self.value
    }

    /// Whether this token is strictly newer than `other`.
    pub fn supersedes(&self, other: FencingToken) -> (r: bool)
        ensures
            r == newer(self@, other@),
    {
        self.value > other.value
    }
}

/// A token numbered `a` supersedes one numbered `b`.
pub open spec fn newer(a: u64, b: u64) -> bool {
    a > b
}

/// What a store that checks fences does with one write: it takes the write,
/// and remembers its fence, only when the fence supersedes the last one taken.
pub open spec fn fenced_store(last: u64, writes: Seq<u64>) -> u64
    decreases writes.len(),
{
    if writes.len() == 0 {
        last
    } else {
        let before = fenced_store(last, writes.drop_last());
        if newer(writes.last(), before) {
            writes.last()
        } else {
            before
        }
    }
}

/// Superseding is a strict total order: no token supersedes itself, of two
/// different tokens exactly one supersedes the other, and a token that
/// supersedes a second supersedes all that the second supersedes.
pub proof fn superseding_is_a_strict_order(a: u64, b: u64, c: u64)
    ensures
        !newer(a, a),
        a != b ==> newer(a, b) != newer(b, a),
        newer(a, b) && newer(b, c) ==> newer(a, c),
{
}

/// A stale holder is shut out: once a fence-checking store has taken a write
/// under `fence`, no write under `fence` or an older one is taken any more,
/// whatever else was written in between.
pub proof fn stale_writes_stay_rejected(last: u64, before: Seq<u64>, fence: u64, after: Seq<u64>)
    requires
        newer(fence, fenced_store(last, before)),
    ensures
        forall|stale: u64|
            stale <= fence ==> !#[trigger] newer(stale, fenced_store(last, before.push(fence) + after)),
    decreases after.len(),
{
    if after.len() == 0 {
        assert(before.push(fence) + after =~= before.push(fence));
        assert(before.push(fence).drop_last() =~= before);
    } else {
        stale_writes_stay_rejected(last, before, fence, after.drop_last());
        let whole = before.push(fence) + after;
        assert(whole.drop_last() =~= before.push(fence) + after.drop_last());
        let prior = fenced_store(last, whole.drop_last());
        assert(!newer(fence, prior));
    }
}

} // verus!
