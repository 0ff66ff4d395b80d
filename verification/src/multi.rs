//! The multi-lock: several keys, all or nothing.
//!
//! Keys are always taken in sorted order, so that concurrent multi-lockers
//! never deadlock. A round that fails gives back what it took and starts again.

use vstd::prelude::*;

use crate::command::texts;
use crate::error::{invalid, timeout, Error, ErrorV};
use crate::fencing::FencingToken;
use crate::options::{below_floor, min_ttl, LockOptions};
use crate::poll::{end_of_wait, nap, PollStep, Waiting};
use crate::single::{sendable, Farewell, PendingLock, RedisLockHandle, RedisLockManager};
use crate::span::Span;
use crate::text::{before, is_before, lemma_before_total, lemma_before_transitive, ordered, same,
    strictly_ordered};

verus! {

/// What `Vec<String>`'s `Debug` prints of the given texts.
pub uninterp spec fn strings_debug(strings: Seq<Seq<char>>) -> Seq<char>;

/// `Vec<String>`'s `Debug` through `format!("{:?}")`: the same strings always
/// print the same.
#[verifier::external_body]
fn strings_debug_text(strings: &Vec<String>) -> (r: String)
    ensures
        r@ == strings_debug(texts(strings@)),
{
    format!("{strings:?}")
}

/// The keys in sorted order.
pub fn sorted_keys(keys: &Vec<String>) -> (r: Vec<String>)
    ensures
        ordered(texts(r@)),
        texts(r@).to_multiset() == texts(keys@).to_multiset(),
{
    let mut out: Vec<String> = Vec::new();
    let mut i: usize = 0;
    proof {
        assert(texts(out@) =~= texts(keys@).take(0));
    }
    while i < keys.len()
        invariant
            0 <= i <= keys@.len(),
            ordered(texts(out@)),
            texts(out@).to_multiset() == texts(keys@).take(i as int).to_multiset(),
        decreases keys@.len() - i,
    {
        let ghost old_texts = texts(out@);
        let key = keys[i].clone();
        let mut p: usize = 0;
        while p < out.len() && !is_before(key.as_str(), out[p].as_str())
            invariant
                0 <= p <= out@.len(),
                old_texts == texts(out@),
                forall|j: int| 0 <= j < p ==> !before(key@, #[trigger] old_texts[j]),
            decreases out@.len() - p,
        {
            p += 1;
        }
        out.insert(p, key);
        proof {
            let new_texts = texts(out@);
            assert(new_texts =~= old_texts.insert(p as int, key@));
            vstd::seq_lib::to_multiset_insert(old_texts, p as int, key@);
            vstd::seq_lib::to_multiset_build(texts(keys@).take(i as int), key@);
            assert(texts(keys@).take(i + 1) =~= texts(keys@).take(i as int).push(key@));
            assert forall|a: int, b: int| 0 <= a < b < new_texts.len() implies !before(
                #[trigger] new_texts[b],
                #[trigger] new_texts[a],
            ) by {
                old_texts.insert_ensures(p as int, key@);
                if b < p {
                    assert(new_texts[a] == old_texts[a]);
                    assert(new_texts[b] == old_texts[b]);
                } else if b == p {
                    assert(new_texts[a] == old_texts[a]);
                } else if a == p {
                    assert(new_texts[b] == old_texts[b - 1]);
                    assert(before(key@, old_texts[p as int]));
                    lemma_before_total(key@, old_texts[b - 1]);
                    if before(old_texts[b - 1], key@) {
                        lemma_before_transitive(old_texts[b - 1], key@, old_texts[p as int]);
                        lemma_before_total(old_texts[p as int], old_texts[p as int]);
                    }
                } else if a < p {
                    assert(new_texts[a] == old_texts[a]);
                    assert(new_texts[b] == old_texts[b - 1]);
                } else {
                    assert(new_texts[a] == old_texts[a - 1]);
                    assert(new_texts[b] == old_texts[b - 1]);
                }
            }
        }
        i += 1;
    }
    proof {
        assert(texts(keys@).take(keys@.len() as int) =~= texts(keys@));
    }
    out
}

/// Two sequences with the same members repeat something or both do not.
proof fn lemma_same_repetition(a: Seq<Seq<char>>, b: Seq<Seq<char>>)
    requires
        a.to_multiset() == b.to_multiset(),
    ensures
        a.no_duplicates() == b.no_duplicates(),
{
    if a.no_duplicates() {
        a.lemma_multiset_has_no_duplicates();
        b.lemma_multiset_has_no_duplicates_conv();
    }
    if b.no_duplicates() {
        b.lemma_multiset_has_no_duplicates();
        a.lemma_multiset_has_no_duplicates_conv();
    }
}

/// Whether a sorted list of keys names one twice.
fn repeats(sorted: &Vec<String>) -> (r: bool)
    requires
        ordered(texts(sorted@)),
    ensures
        r == !texts(sorted@).no_duplicates(),
        !r ==> strictly_ordered(texts(sorted@)),
{
    let ghost ts = texts(sorted@);
    let mut i: usize = 1;
    while i < sorted.len()
        invariant
            ts == texts(sorted@),
            ordered(ts),
            1 <= i,
            forall|j: int| 1 <= j < i && j < ts.len() ==> ts[j - 1] != #[trigger] ts[j],
        decreases sorted@.len() - i,
    {
        if same(sorted[i - 1].as_str(), sorted[i].as_str()) {
            proof {
                assert(ts[i - 1] == ts[i as int]);
            }
            return true;
        }
        i += 1;
    }
    proof {
        lemma_distinct_neighbours(ts);
        assert forall|a: int, b: int| 0 <= a < ts.len() && 0 <= b < ts.len() && a != b implies ts[a]
            != ts[b] by {
            if a < b {
                assert(before(ts[a], ts[b]));
                lemma_before_total(ts[a], ts[a]);
            } else {
                assert(before(ts[b], ts[a]));
                lemma_before_total(ts[b], ts[b]);
            }
        }
    }
    false
}

/// Sorted keys whose neighbours differ are in strict order.
proof fn lemma_distinct_neighbours(ts: Seq<Seq<char>>)
    requires
        ordered(ts),
        forall|j: int| 1 <= j < ts.len() ==> ts[j - 1] != #[trigger] ts[j],
    ensures
        strictly_ordered(ts),
{
    assert forall|a: int, b: int| 0 <= a < b < ts.len() implies before(
        #[trigger] ts[a],
        #[trigger] ts[b],
    ) by {
        lemma_strict_from(ts, a, b);
    }
}

proof fn lemma_strict_from(ts: Seq<Seq<char>>, a: int, b: int)
    requires
        ordered(ts),
        forall|j: int| 1 <= j < ts.len() ==> ts[j - 1] != #[trigger] ts[j],
        0 <= a < b < ts.len(),
    ensures
        before(ts[a], ts[b]),
    decreases b - a,
{
    lemma_before_total(ts[b - 1], ts[b]);
    if a < b - 1 {
        lemma_strict_from(ts, a, b - 1);
        lemma_before_transitive(ts[a], ts[b - 1], ts[b]);
    }
}

/// Keys that a multi-lock refuses, or the refusal of a lease below the floor.
pub open spec fn multi_fault(keys: Seq<Seq<char>>, ttl: nat) -> Option<ErrorV> {
    if ttl < min_ttl() {
        Some(ErrorV::InvalidConfig(below_floor("ttl "@, ttl)))
    } else if !keys.no_duplicates() {
        Some(ErrorV::InvalidConfig("multi-lock received duplicate keys"@))
    } else {
        None
    }
}

/// A multi-lock in the making.
#[derive(Debug)]
pub struct MultiAcquire {
    /// The keys in the order in which they are taken.
    pub sorted: Vec<String>,
    pub options: LockOptions,
    pub waiting: Waiting,
    /// What this round has taken so far.
    pub taken: Vec<RedisLockHandle>,
}

/// What one attempt of a round leads to.
#[derive(Debug)]
pub enum MultiStep {
    /// Go on: more keys, or all are taken.
    Taken,
    /// Send these calls in order, their answers ignored, then ask
    /// [`MultiAcquire::after_retreat`]. The error is what went wrong.
    Retreat(Vec<Farewell>, Error),
    /// The acquisition failed for a reason that no retry mends; what was taken
    /// is dropped.
    Failed(Error),
}

/// An attempt that makes the round give back what it took.
pub open spec fn retreats(e: ErrorV) -> bool {
    e is Held || e is Backend
}

/// `calls` releases `handles` explicitly, the last first.
pub open spec fn released_in_reverse(
    calls: Seq<Farewell>,
    handles: Seq<RedisLockHandle>,
) -> bool {
    &&& calls.len() == handles.len()
    &&& forall|j: int|
        0 <= j < calls.len() ==> handles[handles.len() - 1 - j].says_farewell(#[trigger] calls[j])
}

/// A failed round keeps nothing: every lock that it took is given back.
pub proof fn retreats_give_back_every_key(
    calls: Seq<Farewell>,
    handles: Seq<RedisLockHandle>,
    i: int,
)
    requires
        released_in_reverse(calls, handles),
        0 <= i < handles.len(),
    ensures
        exists|j: int| 0 <= j < calls.len() && handles[i].says_farewell(#[trigger] calls[j]),
{
    let j = handles.len() - 1 - i;
    assert(handles[handles.len() - 1 - j].says_farewell(calls[j]));
}

impl MultiAcquire {
    /// The keys are in strict order, what is taken are the first of them, and
    /// none of it was released.
    pub open spec fn wf(self) -> bool {
        &&& strictly_ordered(texts(self.sorted@))
        &&& self.taken@.len() <= self.sorted@.len()
        &&& forall|i: int|
            0 <= i < self.taken@.len() ==> (#[trigger] self.taken@[i]).key@ == self.sorted@[i]@
                && !self.taken@[i].released
    }

    /// Whether every key is taken.
    pub fn complete(&self) -> (r: bool)
        requires
            self.wf(),
        ensures
            r == (self.taken@.len() == self.sorted@.len()),
    {
        self.taken.len() == self.sorted.len()
    }

    /// Begins to take the next key.
    pub fn next_attempt(&self, manager: &RedisLockManager) -> (r: Result<PendingLock, Error>)
        requires
            self.wf(),
            self.taken@.len() < self.sorted@.len(),
            sendable(self.options.lease(manager.default_ttl)@),
        ensures
            r is Ok <==> self.options.lease(manager.default_ttl)@ >= min_ttl(),
            r matches Ok(p) ==> p.key@ == self.sorted@[self.taken@.len() as int]@ && p.ttl
                == self.options.lease(manager.default_ttl) && p.watchdog == (
            match self.options.watchdog {
                Some(w) => w,
                None => manager.watchdog_default,
            }) && p.owner.minted(),
            r matches Err(e) ==> e@ == ErrorV::InvalidConfig(
                below_floor("ttl "@, self.options.lease(manager.default_ttl)@),
            ),
    {
        manager.try_lock_with(self.sorted[self.taken.len()].as_str(), &self.options)
    }

    /// Takes the outcome of an attempt on the next key.
    pub fn took(&mut self, attempt: Result<RedisLockHandle, Error>) -> (r: MultiStep)
        requires
            old(self).wf(),
            old(self).taken@.len() < old(self).sorted@.len(),
            attempt matches Ok(h) ==> h.key@ == old(self).sorted@[old(self).taken@.len() as int]@
                && !h.released,
        ensures
            final(self).wf(),
            final(self).sorted == old(self).sorted,
            final(self).options == old(self).options,
            final(self).waiting == old(self).waiting,
            match attempt {
                Ok(h) => r is Taken && final(self).taken@ == old(self).taken@.push(h),
                Err(e) => if retreats(e@) {
                    r matches MultiStep::Retreat(calls, why) && why == e && released_in_reverse(
                        calls@,
                        old(self).taken@,
                    ) && final(self).taken@.len() == 0
                } else {
                    r == MultiStep::Failed(e) && final(self).taken == old(self).taken
                },
            },
    {
        match attempt {
            Ok(h) => {
                self.taken.push(h);
                MultiStep::Taken
            },
            Err(e) => {
                let back = match &e {
                    Error::Held { .. } => true,
                    Error::Backend(_) => true,
                    _ => false,
                };
                if back {
                    let calls = self.roll_back();
                    MultiStep::Retreat(calls, e)
                } else {
                    MultiStep::Failed(e)
                }
            },
        }
    }

    /// Gives back what this round took, the last first.
    fn roll_back(&mut self) -> (r: Vec<Farewell>)
        requires
            old(self).wf(),
        ensures
            final(self).wf(),
            final(self).sorted == old(self).sorted,
            final(self).options == old(self).options,
            final(self).waiting == old(self).waiting,
            final(self).taken@.len() == 0,
            released_in_reverse(r@, old(self).taken@),
    {
        let ghost all = self.taken@;
        let mut calls: Vec<Farewell> = Vec::new();
        loop
            invariant
                self.wf(),
                self.sorted == old(self).sorted,
                self.options == old(self).options,
                self.waiting == old(self).waiting,
                all == old(self).taken@,
                self.taken@ == all.take(all.len() - calls@.len()),
                calls@.len() <= all.len(),
                forall|i: int| 0 <= i < all.len() ==> !(#[trigger] all[i]).released,
                forall|j: int|
                    0 <= j < calls@.len() ==> all[all.len() - 1 - j].says_farewell(
                        #[trigger] calls@[j],
                    ),
            ensures
                self.wf(),
                self.sorted == old(self).sorted,
                self.options == old(self).options,
                self.waiting == old(self).waiting,
                self.taken@.len() == 0,
                calls@.len() == all.len(),
                forall|j: int|
                    0 <= j < calls@.len() ==> all[all.len() - 1 - j].says_farewell(
                        #[trigger] calls@[j],
                    ),
            decreases all.len() - calls@.len(),
        {
            match self.taken.pop() {
                None => {
                    break;
                },
                Some(h) => {
                    let mut h = h;
                    proof {
                        assert(h == all[all.len() - 1 - calls@.len()]);
                    }
                    match h.release() {
                        Some(f) => {
                            calls.push(f);
                            proof {
                                assert(self.taken@ =~= all.take(all.len() - calls@.len()));
                            }
                        },
                        None => {
                            proof {
                                assert(false);
                            }
                        },
                    }
                },
            }
        }
        calls
    }

    /// What follows a retreat that ended at `now`: another round after a
    /// sleep, or a timeout once the wait has run out.
    pub fn after_retreat(&self, now: u128) -> (r: PollStep<()>)
        ensures
            match nap(self.waiting.deadline, self.waiting.clipped, now) {
                None => r matches PollStep::Done(Err(e)) && e@ == (ErrorV::Timeout {
                    key: "multi:"@ + strings_debug(texts(self.sorted@)),
                }),
                Some(n) => r matches PollStep::Sleep(s) && s@ == n,
            },
    {
        match self.waiting.sleep_at(now) {
            Some(s) => PollStep::Sleep(s),
            None => PollStep::Done(
                Err(
                    timeout(
                        "multi:".to_owned().concat(
                            strings_debug_text(&self.sorted).as_str(),
                        ).as_str(),
                    ),
                ),
            ),
        }
    }

    /// The multi-lock, once every key is taken.
    pub fn finish(self) -> (r: MultiLockHandle)
        requires
            self.wf(),
            self.taken@.len() == self.sorted@.len(),
        ensures
            r.handles == self.taken,
            r.held_keys() == texts(self.sorted@),
    {
        let r = MultiLockHandle { handles: self.taken };
        proof {
            assert(r.held_keys() =~= texts(self.sorted@));
        }
        r
    }
}

impl RedisLockManager {
    /// Begins to acquire all of `keys` under `options`, at `now`. A lease below
    /// the floor is refused, then a key that is named twice.
    pub fn try_lock_all(&self, keys: &Vec<String>, options: &LockOptions, wait: &Span, now: u128)
        -> (r: Result<MultiAcquire, Error>)
        ensures
            r is Ok <==> multi_fault(texts(keys@), options.lease(self.default_ttl)@) is None,
            r matches Err(e) ==> multi_fault(texts(keys@), options.lease(self.default_ttl)@) == Some(
                e@,
            ),
            r matches Ok(m) ==> m.wf() && texts(m.sorted@).to_multiset()
                == texts(keys@).to_multiset() && m.taken@.len() == 0 && m.options == *options
                && m.waiting.deadline == end_of_wait(now, wait@) && !m.waiting.clipped,
    {
        match options.checked_lease(self.default_ttl) {
            Ok(_) => {},
            Err(e) => {
                return Err(e);
            },
        }
        let sorted = sorted_keys(keys);
        proof {
            lemma_same_repetition(texts(sorted@), texts(keys@));
        }
        if repeats(&sorted) {
            return Err(invalid("multi-lock received duplicate keys"));
        }
        Ok(
            MultiAcquire {
                sorted,
                options: *options,
                waiting: Waiting::start("multi", wait, now),
                taken: Vec::new(),
            },
        )
    }
}

/// Several keys held together.
#[derive(Debug)]
pub struct MultiLockHandle {
    /// One lock per key, in the order in which they were taken.
    pub handles: Vec<RedisLockHandle>,
}

/// One release among those of a multi-lock.
#[derive(Debug)]
pub struct MultiRelease {
    /// Which of the locks it releases.
    pub index: usize,
    pub calls: Farewell,
}

/// The positions of the locks that are not released yet, the last first.
pub open spec fn unreleased(handles: Seq<RedisLockHandle>) -> Seq<int>
    decreases handles.len(),
{
    if handles.len() == 0 {
        seq![]
    } else if handles.last().released {
        unreleased(handles.drop_last())
    } else {
        seq![handles.len() - 1] + unreleased(handles.drop_last())
    }
}

/// The first fault, if there is one.
pub open spec fn first_fault(faults: Seq<Option<ErrorV>>) -> Option<ErrorV>
    decreases faults.len(),
{
    if faults.len() == 0 {
        None
    } else if first_fault(faults.drop_last()) is Some {
        first_fault(faults.drop_last())
    } else {
        faults.last()
    }
}

impl MultiLockHandle {
    /// The keys, in the order in which they were taken.
    pub open spec fn held_keys(self) -> Seq<Seq<char>> {
        self.handles@.map_values(|h: RedisLockHandle| h.key@)
    }

    /// The fences, one per key, in the order of the keys.
    pub fn fences(&self) -> (r: Vec<FencingToken>)
        ensures
            r@ == self.handles@.map_values(|h: RedisLockHandle| h.fence),
    {
        let mut out: Vec<FencingToken> = Vec::new();
        let mut i: usize = 0;
        while i < self.handles.len()
            invariant
                0 <= i <= self.handles@.len(),
                out@ == self.handles@.take(i as int).map_values(|h: RedisLockHandle| h.fence),
            decreases self.handles@.len() - i,
        {
            out.push(self.handles[i].fence());
            proof {
                assert(out@ =~= self.handles@.take(i + 1).map_values(
                    |h: RedisLockHandle| h.fence,
                ));
            }
            i += 1;
        }
        proof {
            assert(self.handles@.take(self.handles@.len() as int) =~= self.handles@);
        }
        out
    }

    /// The keys in the order in which they were taken.
    pub fn keys(&self) -> (r: Vec<String>)
        ensures
            texts(r@) == self.held_keys(),
    {
        let mut out: Vec<String> = Vec::new();
        let mut i: usize = 0;
        while i < self.handles.len()
            invariant
                0 <= i <= self.handles@.len(),
                texts(out@) == self.held_keys().take(i as int),
            decreases self.handles@.len() - i,
        {
            let ghost before = texts(out@);
            let key = self.handles[i].key().to_owned();
            out.push(key);
            proof {
                assert(texts(out@) =~= before.push(key@));
                assert(texts(out@) =~= self.held_keys().take(i + 1));
            }
            i += 1;
        }
        proof {
            assert(self.held_keys().take(self.handles@.len() as int) =~= self.held_keys());
        }
        out
    }

    /// Begins to release every key that was not released yet, the last taken
    /// first. A second call has nothing left to release.
    pub fn release_all(&mut self) -> (r: Vec<MultiRelease>)
        ensures
            r@.map_values(|m: MultiRelease| m.index as int) == unreleased(old(self).handles@),
            forall|j: int|
                0 <= j < r@.len() ==> (#[trigger] r@[j]).index < old(self).handles@.len() && old(
                    self,
                ).handles@[r@[j].index as int].says_farewell(r@[j].calls),
            final(self).handles@ == old(self).handles@.map_values(
                |h: RedisLockHandle| RedisLockHandle { released: true, ..h },
            ),
            unreleased(final(self).handles@).len() == 0,
    {
        let ghost all = self.handles@;
        let mut out: Vec<MultiRelease> = Vec::new();
        let mut done: Vec<RedisLockHandle> = Vec::new();
        let ghost index = |m: MultiRelease| m.index as int;
        let ghost mark = |h: RedisLockHandle| RedisLockHandle { released: true, ..h };
        proof {
            assert(all.take(all.len() as int) =~= all);
            assert(out@.map_values(index) =~= seq![]);
            assert(seq![] + unreleased(all) =~= unreleased(all));
        }
        loop
            invariant
                index == (|m: MultiRelease| m.index as int),
                mark == (|h: RedisLockHandle| RedisLockHandle { released: true, ..h }),
                all == old(self).handles@,
                done@.len() <= all.len(),
                self.handles@ == all.take(all.len() - done@.len()),
                forall|k: int|
                    0 <= k < done@.len() ==> #[trigger] done@[k] == mark(all[all.len() - 1 - k]),
                out@.map_values(index) + unreleased(self.handles@) == unreleased(all),
                forall|j: int|
                    0 <= j < out@.len() ==> (#[trigger] out@[j]).index < all.len()
                        && all[out@[j].index as int].says_farewell(out@[j].calls),
            ensures
                self.handles@.len() == 0,
                done@.len() == all.len(),
                forall|k: int|
                    0 <= k < done@.len() ==> #[trigger] done@[k] == mark(all[all.len() - 1 - k]),
                out@.map_values(index) == unreleased(all),
                forall|j: int|
                    0 <= j < out@.len() ==> (#[trigger] out@[j]).index < all.len()
                        && all[out@[j].index as int].says_farewell(out@[j].calls),
            decreases all.len() - done@.len(),
        {
            let ghost held = self.handles@;
            let ghost sent = out@;
            match self.handles.pop() {
                None => {
                    proof {
                        assert(out@.map_values(index) + unreleased(self.handles@)
                            =~= out@.map_values(index));
                    }
                    break;
                },
                Some(h) => {
                    let mut h = h;
                    let i: usize = self.handles.len();
                    proof {
                        assert(h == all[i as int]);
                        assert(held.drop_last() =~= self.handles@);
                    }
                    match h.release() {
                        Some(calls) => {
                            out.push(MultiRelease { index: i, calls });
                            proof {
                                assert(out@.map_values(index) =~= sent.map_values(index).push(
                                    i as int,
                                ));
                                assert(sent.map_values(index).push(i as int) + unreleased(
                                    self.handles@,
                                ) =~= sent.map_values(index) + (seq![i as int] + unreleased(
                                    self.handles@,
                                )));
                            }
                        },
                        None => {},
                    }
                    done.push(h);
                    proof {
                        assert(self.handles@ =~= all.take(all.len() - done@.len()));
                    }
                },
            }
        }
        let mut k: usize = done.len();
        while k > 0
            invariant
                0 <= k <= done@.len(),
                done@.len() == k,
                k <= all.len(),
                mark == (|h: RedisLockHandle| RedisLockHandle { released: true, ..h }),
                forall|n: int|
                    0 <= n < done@.len() ==> #[trigger] done@[n] == mark(all[all.len() - 1 - n]),
                self.handles@ == all.take(all.len() - k).map_values(mark),
            decreases k,
        {
            match done.pop() {
                Some(h) => {
                    self.handles.push(h);
                },
                None => {},
            }
            k -= 1;
            proof {
                assert(self.handles@ =~= all.take(all.len() - k).map_values(mark));
            }
        }
        proof {
            assert(all.take(all.len() as int) =~= all);
            lemma_nothing_left(self.handles@);
        }
        out
    }

    /// What the answers to the releases mean, in the order in which they were
    /// sent: the first failure, if there is one.
    pub fn released_all(&self, sent: &Vec<MultiRelease>, replies: Vec<Result<i64, String>>) -> (r:
        Result<(), Error>)
        requires
            sent@.len() == replies@.len(),
            forall|j: int| 0 <= j < sent@.len() ==> (#[trigger] sent@[j]).index < self.handles@.len(),
        ensures
            r is Ok <==> first_fault(self.faults(sent@, replies@)) is None,
            r matches Err(e) ==> first_fault(self.faults(sent@, replies@)) == Some(e@),
    {
        let ghost faults = self.faults(sent@, replies@);
        let ghost given = replies@;
        let mut replies = replies;
        let mut first: Option<Error> = None;
        let mut j: usize = 0;
        proof {
            assert(faults.take(0) =~= seq![]);
        }
        while j < sent.len()
            invariant
                0 <= j <= sent@.len(),
                sent@.len() == given.len(),
                faults == self.faults(sent@, given),
                replies@ == given.skip(j as int),
                forall|k: int|
                    0 <= k < sent@.len() ==> (#[trigger] sent@[k]).index < self.handles@.len(),
                match first {
                    Some(e) => first_fault(faults.take(j as int)) == Some(e@),
                    None => first_fault(faults.take(j as int)) is None,
                },
            decreases sent@.len() - j,
        {
            let reply = replies.remove(0);
            let answer = self.handles[sent[j].index].release_answer(reply);
            proof {
                assert(reply == given[j as int]);
                assert(replies@ =~= given.skip(j + 1));
                assert(faults.take(j + 1).drop_last() =~= faults.take(j as int));
                assert(faults.take(j + 1).last() == faults[j as int]);
            }
            match answer {
                Ok(()) => {},
                Err(e) => if first.is_none() {
                    first = Some(e);
                },
            }
            j += 1;
        }
        proof {
            assert(faults.take(sent@.len() as int) =~= faults);
        }
        match first {
            Some(e) => Err(e),
            None => Ok(()),
        }
    }

    /// What is wrong with each answer, if anything.
    pub open spec fn faults(
        self,
        sent: Seq<MultiRelease>,
        replies: Seq<Result<i64, String>>,
    ) -> Seq<Option<ErrorV>> {
        Seq::new(
            sent.len(),
            |j: int| self.handles@[sent[j].index as int].release_fault(replies[j]),
        )
    }
}

proof fn lemma_nothing_left(handles: Seq<RedisLockHandle>)
    requires
        forall|i: int| 0 <= i < handles.len() ==> (#[trigger] handles[i]).released,
    ensures
        unreleased(handles).len() == 0,
    decreases handles.len(),
{
    if handles.len() > 0 {
        lemma_nothing_left(handles.drop_last());
    }
}

/// Any two multi-lockers take the keys that they have in common in the same
/// order.
pub proof fn common_keys_are_taken_in_one_order(
    a: Seq<Seq<char>>,
    b: Seq<Seq<char>>,
    i: int,
    j: int,
    k: int,
    l: int,
)
    requires
        strictly_ordered(a),
        strictly_ordered(b),
        0 <= i < j < a.len(),
        0 <= k < b.len(),
        0 <= l < b.len(),
        a[i] == b[k],
        a[j] == b[l],
    ensures
        k < l,
{
    assert(before(a[i], a[j]));
    lemma_before_total(a[i], a[j]);
    lemma_before_total(a[i], a[i]);
    if l < k {
        assert(before(b[l], b[k]));
    }
}

/// A multi-locker in the middle of a round: its keys in order, and how many of
/// them it has taken.
pub struct Locker {
    pub keys: Seq<Seq<char>>,
    pub taken: int,
}

impl Locker {
    /// It takes its keys in order and still lacks one.
    pub open spec fn waiting(self) -> bool {
        strictly_ordered(self.keys) && 0 <= self.taken < self.keys.len()
    }

    /// The next key it needs has been taken by `other`.
    pub open spec fn blocked_by(self, other: Locker) -> bool {
        exists|k: int|
            0 <= k < other.taken && #[trigger] other.keys[k] == self.keys[self.taken]
    }
}

/// The locker at `i` waits for a key that the next one around has taken.
pub open spec fn blocked_at(ring: Seq<Locker>, i: int) -> bool {
    ring[i].blocked_by(
        ring[if i == ring.len() - 1 {
            0
        } else {
            i + 1
        }],
    )
}

/// Concurrent multi-lockers never deadlock: whatever keys they want and
/// however many they have taken, they cannot stand in a ring in which each
/// waits for a key that the next one has taken.
pub proof fn multi_lockers_never_deadlock(ring: Seq<Locker>)
    requires
        ring.len() > 0,
        forall|i: int| 0 <= i < ring.len() ==> (#[trigger] ring[i]).waiting(),
    ensures
        exists|i: int| 0 <= i < ring.len() && !(#[trigger] blocked_at(ring, i)),
{
    let n = ring.len() as int;
    if forall|i: int| 0 <= i < n ==> #[trigger] blocked_at(ring, i) {
        assert(blocked_at(ring, n - 1));
        lemma_wanted_grows(ring[n - 1], ring[0]);
        if n > 1 {
            lemma_wanted_grows_along(ring, n - 1);
            lemma_before_transitive(
                ring[0].keys[ring[0].taken],
                ring[n - 1].keys[ring[n - 1].taken],
                ring[0].keys[ring[0].taken],
            );
        }
        lemma_before_total(ring[0].keys[ring[0].taken], ring[0].keys[ring[0].taken]);
        assert(false);
    }
}

/// A blocked locker wants an earlier key than the one that blocks it.
proof fn lemma_wanted_grows(a: Locker, b: Locker)
    requires
        a.waiting(),
        b.waiting(),
        a.blocked_by(b),
    ensures
        before(a.keys[a.taken], b.keys[b.taken]),
{
    let k = choose|k: int| 0 <= k < b.taken && #[trigger] b.keys[k] == a.keys[a.taken];
    assert(before(b.keys[k], b.keys[b.taken]));
}

proof fn lemma_wanted_grows_along(ring: Seq<Locker>, m: int)
    requires
        0 < m < ring.len(),
        forall|i: int| 0 <= i < ring.len() ==> (#[trigger] ring[i]).waiting(),
        forall|i: int| 0 <= i < ring.len() ==> #[trigger] blocked_at(ring, i),
    ensures
        before(ring[0].keys[ring[0].taken], ring[m].keys[ring[m].taken]),
    decreases m,
{
    assert(blocked_at(ring, m - 1));
    lemma_wanted_grows(ring[m - 1], ring[m]);
    if m > 1 {
        lemma_wanted_grows_along(ring, m - 1);
        lemma_before_transitive(
            ring[0].keys[ring[0].taken],
            ring[m - 1].keys[ring[m - 1].taken],
            ring[m].keys[ring[m].taken],
        );
    }
}

} // verus!
