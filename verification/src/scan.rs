//! The enumeration of held keys under a prefix.
//!
//! The store hands out keys in batches, by a pattern, and may hand out a key
//! more than once. It keeps more than locks: fence counters, queues, heartbeats
//! and wills have leases too. These are known by the shape of their names. A
//! lock may happen to have a name of that shape; it is told from them by the
//! fence counter that only a lock has.

use vstd::prelude::*;

use crate::command::{cmd, Command};
use crate::error::{backend, Error, ErrorV};
use crate::single::{fence_key, fence_key_for};
use crate::slots::{is_side_named, side_named};
use crate::text::{chars_of, same, starts_with};

verus! {

/// A character as a pattern has it: behind a backslash where it would have a
/// meaning of its own.
pub open spec fn globbed(c: char) -> Seq<char> {
    if c == '*' || c == '?' || c == '[' || c == '\\' {
        seq!['\\', c]
    } else {
        seq![c]
    }
}

/// `s` as a pattern has it.
pub open spec fn globbed_all(s: Seq<char>) -> Seq<char>
    decreases s.len(),
{
    if s.len() == 0 {
        seq![]
    } else {
        globbed_all(s.drop_last()) + globbed(s.last())
    }
}

/// The pattern of the keys under `prefix`.
pub open spec fn pattern_of(prefix: Seq<char>) -> Seq<char> {
    globbed_all(prefix) + "*"@
}

/// The pattern of the keys under `prefix`.
pub fn pattern_for(prefix: &str) -> (r: String)
    ensures
        r@ == pattern_of(prefix@),
{
    let xs = chars_of(prefix);
    let mut out = String::new();
    let mut i: usize = 0;
    while i < xs.len()
        invariant
            xs@ == prefix@,
            0 <= i <= xs@.len(),
            out@ == globbed_all(prefix@.take(i as int)),
        decreases xs@.len() - i,
    {
        let c = xs[i];
        let ghost before = out@;
        proof {
            assert(prefix@.take(i + 1).drop_last() =~= prefix@.take(i as int));
            assert(prefix@.take(i + 1).last() == c);
        }
        if c == '*' || c == '?' || c == '[' || c == '\\' {
            out.push('\\');
        }
        out.push(c);
        proof {
            assert(out@ =~= before + globbed(c));
        }
        i += 1;
    }
    proof {
        assert(prefix@.take(prefix@.len() as int) =~= prefix@);
    }
    out.concat("*")
}

/// Whether the store takes `text` for a key of `pattern`: `*` stands for any
/// characters, `?` for any one, and a character behind a backslash for itself.
/// Classes in square brackets are left out.
pub open spec fn matched(pattern: Seq<char>, text: Seq<char>) -> bool
    decreases pattern.len(), text.len(),
{
    if pattern.len() == 0 {
        text.len() == 0
    } else if pattern[0] == '*' {
        matched(pattern.skip(1), text) || (text.len() > 0 && matched(pattern, text.skip(1)))
    } else if pattern[0] == '\\' && pattern.len() >= 2 {
        text.len() > 0 && text[0] == pattern[1] && matched(pattern.skip(2), text.skip(1))
    } else {
        text.len() > 0 && (pattern[0] == '?' || text[0] == pattern[0]) && matched(
            pattern.skip(1),
            text.skip(1),
        )
    }
}

/// What stands for a text goes character by character.
proof fn lemma_globbed_first(s: Seq<char>)
    requires
        s.len() > 0,
    ensures
        globbed_all(s) == globbed(s[0]) + globbed_all(s.skip(1)),
    decreases s.len(),
{
    if s.len() == 1 {
        assert(s.drop_last() =~= seq![]);
        assert(s.skip(1) =~= seq![]);
        assert(globbed_all(s) =~= globbed(s[0]) + globbed_all(s.skip(1)));
    } else {
        let front = s.drop_last();
        lemma_globbed_first(front);
        assert(front.skip(1) =~= s.skip(1).drop_last());
        assert(s.skip(1).last() == s.last());
        assert(globbed_all(s) =~= globbed(s[0]) + globbed_all(s.skip(1)));
    }
}

/// A lone star matches anything.
proof fn lemma_star(text: Seq<char>)
    ensures
        matched("*"@, text),
    decreases text.len(),
{
    reveal_strlit("*");
    if text.len() == 0 {
        assert("*"@.skip(1) =~= seq![]);
        assert(matched("*"@.skip(1), text));
    } else {
        lemma_star(text.skip(1));
    }
}

/// The pattern of a prefix is met by the keys that begin with the prefix and by
/// no others, whatever characters the prefix holds.
pub proof fn patterns_match_the_prefix(prefix: Seq<char>, key: Seq<char>)
    ensures
        matched(pattern_of(prefix), key) <==> prefix.is_prefix_of(key),
    decreases prefix.len(),
{
    if prefix.len() == 0 {
        assert(pattern_of(prefix) =~= "*"@);
        lemma_star(key);
        assert(prefix =~= key.subrange(0, 0));
    } else {
        let rest = prefix.skip(1);
        let pattern = pattern_of(prefix);
        lemma_globbed_first(prefix);
        assert(pattern =~= globbed(prefix[0]) + pattern_of(rest));
        assert(pattern.skip(globbed(prefix[0]).len() as int) =~= pattern_of(rest));
        if key.len() > 0 {
            patterns_match_the_prefix(rest, key.skip(1));
            if prefix.is_prefix_of(key) {
                assert(key[0] == prefix[0]) by {
                    assert(prefix[0] == key.subrange(0, prefix.len() as int)[0]);
                }
                assert(rest =~= key.skip(1).subrange(0, rest.len() as int)) by {
                    assert forall|i: int| 0 <= i < rest.len() implies rest[i] == key.skip(1)[i] by {
                        assert(prefix[i + 1] == key.subrange(0, prefix.len() as int)[i + 1]);
                    }
                }
            }
            if key[0] == prefix[0] && rest.is_prefix_of(key.skip(1)) {
                assert forall|i: int| 0 <= i < prefix.len() implies prefix[i] == key[i] by {
                    if i > 0 {
                        assert(rest[i - 1] == key.skip(1).subrange(0, rest.len() as int)[i - 1]);
                    }
                }
                assert(prefix =~= key.subrange(0, prefix.len() as int));
            }
        }
    }
}

/// The enumeration of held keys: batches of keys from the store, and for each
/// its remaining lease and its fence counter.
#[derive(Debug)]
pub struct Scan {
    pub prefix: String,
    /// Nothing was asked yet.
    pub fresh: bool,
    pub cursor: u64,
    /// The latest batch.
    pub batch: Vec<String>,
    /// How many keys of the batch have been looked at.
    pub at: usize,
    /// Held keys so far, with their remaining milliseconds.
    pub found: Vec<(String, u64)>,
}

/// What an enumeration asks next.
#[derive(Debug)]
pub enum ScanStep {
    /// The next batch.
    Batch(Command),
    /// The remaining lease of one key, and whether it has a fence counter.
    Key { lease: Command, counter: Command },
    /// Nothing more.
    Done,
}

/// The entries of an enumeration over character sequences.
pub open spec fn entries(s: Seq<(String, u64)>) -> Seq<(Seq<char>, u64)> {
    s.map_values(|e: (String, u64)| (e.0@, e.1))
}

/// What the store answered of one key: its remaining lease in milliseconds and
/// how many fence counters it has; nothing where it gave no answer.
pub type Answers = (Option<i64>, Option<i64>);

/// `key` is a held lock under `prefix` for `lease` more milliseconds, by what
/// the store answered of it: it has a lease, and a name that is kept beside
/// locks has a fence counter of its own.
pub open spec fn shows_held(
    prefix: Seq<char>,
    key: Seq<char>,
    answers: Answers,
    lease: u64,
) -> bool {
    &&& prefix.is_prefix_of(key)
    &&& answers.0 matches Some(ms) && ms > 0 && lease == ms as u64
    &&& side_named(key) ==> (answers.1 matches Some(n) && n > 0)
}

/// `key` is among the entries.
pub open spec fn listed(found: Seq<(Seq<char>, u64)>, key: Seq<char>) -> bool {
    exists|i: int| 0 <= i < found.len() && (#[trigger] found[i]).0 == key
}

/// What is found after one more key was looked at: a held lock joins, with its
/// remaining lease, unless it is there already.
pub open spec fn after_key(
    prefix: Seq<char>,
    found: Seq<(Seq<char>, u64)>,
    key: Seq<char>,
    answers: Answers,
) -> Seq<(Seq<char>, u64)> {
    match answers.0 {
        Some(ms) => if shows_held(prefix, key, answers, ms as u64) && !listed(found, key) {
            found.push((key, ms as u64))
        } else {
            found
        },
        None => found,
    }
}

/// What is found after all of `keys` were looked at, in order, and the store
/// answered `answers`.
pub open spec fn after_keys(
    prefix: Seq<char>,
    found: Seq<(Seq<char>, u64)>,
    keys: Seq<Seq<char>>,
    answers: Seq<Answers>,
) -> Seq<(Seq<char>, u64)>
    decreases keys.len(),
{
    if keys.len() == 0 || answers.len() == 0 {
        found
    } else {
        after_key(
            prefix,
            after_keys(prefix, found, keys.drop_last(), answers.drop_last()),
            keys.last(),
            answers.last(),
        )
    }
}

/// The store answered, for the key at `i`, that it is a held lock with the
/// remaining lease that `entry` tells.
pub open spec fn told(
    prefix: Seq<char>,
    keys: Seq<Seq<char>>,
    answers: Seq<Answers>,
    i: int,
    entry: (Seq<char>, u64),
) -> bool {
    0 <= i < keys.len() && keys[i] == entry.0 && shows_held(prefix, keys[i], answers[i], entry.1)
}

/// The store answered of some key what `entry` tells.
pub open spec fn answered(
    prefix: Seq<char>,
    keys: Seq<Seq<char>>,
    answers: Seq<Answers>,
    entry: (Seq<char>, u64),
) -> bool {
    exists|i: int| told(prefix, keys, answers, i, entry)
}

/// No key is listed twice.
pub open spec fn distinct(found: Seq<(Seq<char>, u64)>) -> bool {
    forall|i: int, j: int|
        0 <= i < j < found.len() ==> (#[trigger] found[i]).0 != (#[trigger] found[j]).0
}

/// An enumeration lists the held locks and nothing else, each once: after a
/// batch, every entry was there before or was told by the store; every key that
/// was there or was told is listed; and no key is listed twice.
pub proof fn scans_list_exactly_the_held_keys(
    prefix: Seq<char>,
    found: Seq<(Seq<char>, u64)>,
    keys: Seq<Seq<char>>,
    answers: Seq<Answers>,
)
    requires
        keys.len() == answers.len(),
        distinct(found),
    ensures
        distinct(after_keys(prefix, found, keys, answers)),
        found.is_prefix_of(after_keys(prefix, found, keys, answers)),
        forall|j: int|
            found.len() <= j < after_keys(prefix, found, keys, answers).len() ==> answered(
                prefix,
                keys,
                answers,
                #[trigger] after_keys(prefix, found, keys, answers)[j],
            ),
        forall|entry: (Seq<char>, u64)| #[trigger]
            answered(prefix, keys, answers, entry) ==> listed(
                after_keys(prefix, found, keys, answers),
                entry.0,
            ),
    decreases keys.len(),
{
    let after = after_keys(prefix, found, keys, answers);
    if keys.len() == 0 {
        assert(found =~= after.subrange(0, found.len() as int));
    } else {
        let n = keys.len() - 1;
        let ks = keys.drop_last();
        let rs = answers.drop_last();
        scans_list_exactly_the_held_keys(prefix, found, ks, rs);
        let before = after_keys(prefix, found, ks, rs);
        assert(found =~= after.subrange(0, found.len() as int)) by {
            assert(found =~= before.subrange(0, found.len() as int));
            assert forall|i: int| 0 <= i < found.len() implies found[i] == after[i] by {
                assert(found[i] == before.subrange(0, found.len() as int)[i]);
            }
        }
        assert forall|j: int| found.len() <= j < after.len() implies answered(
            prefix,
            keys,
            answers,
            #[trigger] after[j],
        ) by {
            if j < before.len() {
                assert(after[j] == before[j]);
                assert(answered(prefix, ks, rs, before[j]));
                let i = choose|i: int| told(prefix, ks, rs, i, before[j]);
                assert(told(prefix, keys, answers, i, after[j]));
            } else {
                assert(told(prefix, keys, answers, n, after[j]));
            }
        }
        assert forall|entry: (Seq<char>, u64)| #[trigger]
            answered(prefix, keys, answers, entry) implies listed(after, entry.0) by {
            let i = choose|i: int| told(prefix, keys, answers, i, entry);
            if i < n {
                assert(ks[i] == keys[i] && rs[i] == answers[i]);
                assert(told(prefix, ks, rs, i, entry));
                assert(answered(prefix, ks, rs, entry));
                let j = choose|j: int| 0 <= j < before.len() && (#[trigger] before[j]).0 == keys[i];
                assert(after[j].0 == keys[i]);
            } else if listed(before, keys[i]) {
                let j = choose|j: int| 0 <= j < before.len() && (#[trigger] before[j]).0 == keys[i];
                assert(after[j].0 == keys[i]);
            } else {
                assert(after[before.len() as int].0 == keys[i]);
            }
        }
    }
}

impl Scan {
    /// No more keys are looked at than the batch has, every entry is under the
    /// prefix, and none is listed twice.
    pub open spec fn wf(self) -> bool {
        &&& self.at <= self.batch@.len()
        &&& distinct(entries(self.found@))
        &&& forall|i: int|
            0 <= i < self.found@.len() ==> self.prefix@.is_prefix_of((#[trigger] self.found@[i]).0@)
    }

    /// An enumeration that has not begun.
    pub fn new(prefix: &str) -> (r: Self)
        ensures
            r.wf(),
            r.prefix@ == prefix@,
            r.fresh,
            r.cursor == 0,
            r.batch@.len() == 0,
            r.at == 0,
            r.found@.len() == 0,
    {
        Scan {
            prefix: prefix.to_owned(),
            fresh: true,
            cursor: 0,
            batch: Vec::new(),
            at: 0,
            found: Vec::new(),
        }
    }

    /// What to ask next: of each key of the batch in order, then the next batch
    /// until the store's cursor is back at zero.
    pub fn next_step(&self) -> (r: ScanStep)
        requires
            self.wf(),
        ensures
            if self.at < self.batch@.len() {
                r matches ScanStep::Key { lease, counter } && lease@ == cmd("PTTL"@).text(
                    self.batch@[self.at as int]@,
                ) && counter@ == cmd("EXISTS"@).text(fence_key(self.batch@[self.at as int]@))
            } else if self.fresh || self.cursor != 0 {
                r matches ScanStep::Batch(c) && c@ == cmd("SCAN"@).num(self.cursor).text(
                    "MATCH"@,
                ).text(pattern_of(self.prefix@)).text("COUNT"@).num(500)
            } else {
                r is Done
            },
    {
        if self.at < self.batch.len() {
            let key = self.batch[self.at].as_str();
            ScanStep::Key {
                lease: Command::named("PTTL").text(key),
                counter: Command::named("EXISTS").text(fence_key_for(key).as_str()),
            }
        } else if self.fresh || self.cursor != 0 {
            ScanStep::Batch(
                Command::named("SCAN").num(self.cursor).text("MATCH").text(
                    pattern_for(self.prefix.as_str()).as_str(),
                ).text("COUNT").num(500),
            )
        } else {
            ScanStep::Done
        }
    }

    /// Takes the answer to a batch.
    pub fn take_batch(&mut self, cursor: u64, keys: Vec<String>)
        requires
            old(self).wf(),
            old(self).at == old(self).batch@.len(),
        ensures
            final(self).wf(),
            *final(self) == (Scan {
                fresh: false,
                cursor,
                batch: keys,
                at: 0,
                ..*old(self)
            }),
    {
        self.fresh = false;
        self.cursor = cursor;
        self.batch = keys;
        self.at = 0;
    }

    /// Whether `key` is listed already.
    fn lists(&self, key: &str) -> (r: bool)
        ensures
            r == listed(entries(self.found@), key@),
    {
        let mut i: usize = 0;
        while i < self.found.len()
            invariant
                0 <= i <= self.found@.len(),
                forall|j: int| 0 <= j < i ==> (#[trigger] entries(self.found@)[j]).0 != key@,
            decreases self.found@.len() - i,
        {
            if same(self.found[i].0.as_str(), key) {
                proof {
                    assert(entries(self.found@)[i as int].0 == key@);
                }
                return true;
            }
            i += 1;
        }
        false
    }

    /// Takes what was answered of the key last asked about: its remaining lease
    /// and how many fence counters it has; `None` where the store gave no
    /// answer. A key without an answer on its lease counts as not held.
    pub fn take_key(&mut self, lease: Option<i64>, counted: Option<i64>)
        requires
            old(self).wf(),
            old(self).at < old(self).batch@.len(),
        ensures
            final(self).wf(),
            final(self).at == old(self).at + 1,
            final(self).prefix == old(self).prefix,
            final(self).fresh == old(self).fresh,
            final(self).cursor == old(self).cursor,
            final(self).batch == old(self).batch,
            entries(final(self).found@) == after_key(
                old(self).prefix@,
                entries(old(self).found@),
                old(self).batch@[old(self).at as int]@,
                (lease, counted),
            ),
    {
        let ghost before = entries(self.found@);
        let key = self.batch[self.at].clone();
        let counter = match counted {
            Some(n) => n > 0,
            None => false,
        };
        match lease {
            Some(ms) => {
                if ms > 0 && (counter || !is_side_named(key.as_str())) && starts_with(
                    key.as_str(),
                    self.prefix.as_str(),
                ) && !self.lists(key.as_str()) {
                    self.found.push((key, ms as u64));
                    proof {
                        assert(entries(self.found@) =~= before.push((key@, ms as u64)));
                        assert forall|i: int, j: int|
                            0 <= i < j < self.found@.len() implies (#[trigger] entries(
                            self.found@,
                        )[i]).0 != (#[trigger] entries(self.found@)[j]).0 by {
                            assert(entries(self.found@)[i] == before[i]);
                            if j < before.len() {
                                assert(entries(self.found@)[j] == before[j]);
                            }
                        }
                    }
                }
            },
            None => {},
        }
        let len: usize = self.batch.len();
        proof {
            assert(self.at < len);
        }
        self.at = self.at + 1;
    }

    /// The failure of a batch.
    pub fn failed(cause: &str) -> (r: Error)
        ensures
            r@ == ErrorV::Backend("scan failed: "@ + cause@),
    {
        backend("scan failed: ", cause)
    }
}

} // verus!
