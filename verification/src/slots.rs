//! Cluster hash slots: which keys a store cluster keeps together.
//!
//! A script may only touch keys of one slot. A cluster takes the slot of a key
//! from its tag: what stands between the first opening brace and the next
//! closing one, if anything does, and the whole key otherwise. What is kept
//! beside a lock is therefore named so that it has the tag of the lock's key.

use vstd::prelude::*;

use crate::fair::{heartbeat_prefix, queue_key};
use crate::semantic::data_key;
use crate::single::fence_key;
use crate::testament::will_key;
use crate::text::{chars_of, ends_with, found_at, has_part, holds_part, starts_with};

verus! {

/// The position of the first `c` in `s` from `from` on.
pub open spec fn first_from(s: Seq<char>, c: char, from: int) -> Option<int>
    decreases s.len() - from,
{
    if from < 0 || from >= s.len() {
        None
    } else if s[from] == c {
        Some(from)
    } else {
        first_from(s, c, from + 1)
    }
}

/// The tag that a key has in braces, if it has one.
pub open spec fn own_tag(key: Seq<char>) -> Option<Seq<char>> {
    match first_from(key, '{', 0) {
        None => None,
        Some(open) => match first_from(key, '}', open + 1) {
            None => None,
            Some(close) => if close == open + 1 {
                None
            } else {
                Some(key.subrange(open + 1, close))
            },
        },
    }
}

/// The part of a key that its slot is taken from.
pub open spec fn hash_tag(key: Seq<char>) -> Seq<char> {
    match own_tag(key) {
        Some(tag) => tag,
        None => key,
    }
}

/// The name of what is kept beside the lock `key` under `name`: it begins with
/// the tag of the key, or with the whole key as its tag where it has none. The
/// second colon tells the two forms apart.
pub open spec fn beside(key: Seq<char>, name: Seq<char>) -> Seq<char> {
    match own_tag(key) {
        Some(tag) => "{"@ + tag + "}:"@ + key + "::"@ + name,
        None => "{"@ + key + "}:"@ + name,
    }
}

/// A key that something can be kept beside: one with a tag of its own, or one
/// that can be put in braces.
pub open spec fn taggable(key: Seq<char>) -> bool {
    key.len() > 0 && (own_tag(key) is Some || !key.contains('}'))
}

/// A name of the shape of what is kept beside locks: fence counters, queues and
/// heartbeats, wills and protected data.
pub open spec fn side_named(name: Seq<char>) -> bool {
    ||| "{"@.is_prefix_of(name) && (":fence"@.is_suffix_of(name) || ":q"@.is_suffix_of(name)
        || has_part(name, ":hb:"@))
    ||| ":will"@.is_suffix_of(name)
    ||| ":data"@.is_suffix_of(name)
}

/// Whether `name` has the shape of what is kept beside locks.
pub fn is_side_named(name: &str) -> (r: bool)
    ensures
        r == side_named(name@),
{
    (starts_with(name, "{") && (ends_with(name, ":fence") || ends_with(name, ":q") || holds_part(
        name,
        ":hb:",
    ))) || ends_with(name, ":will") || ends_with(name, ":data")
}

/// Whatever the library keeps beside a lock is known by its name.
pub proof fn side_keys_are_known(key: Seq<char>, token: Seq<char>)
    ensures
        side_named(fence_key(key)),
        side_named(queue_key(key)),
        side_named(heartbeat_prefix(key) + token),
        side_named(will_key(key)),
        side_named(data_key(key)),
{
    reveal_strlit("{");
    reveal_strlit("}:");
    reveal_strlit("::");
    reveal_strlit("fence");
    reveal_strlit(":fence");
    reveal_strlit("q");
    reveal_strlit(":q");
    reveal_strlit("hb:");
    reveal_strlit(":hb:");
    let f = fence_key(key);
    let q = queue_key(key);
    let h = heartbeat_prefix(key) + token;
    let w = will_key(key);
    let d = data_key(key);
    assert("{"@ =~= f.subrange(0, 1));
    assert("{"@ =~= q.subrange(0, 1));
    assert("{"@ =~= h.subrange(0, 1));
    assert(":fence"@ =~= f.subrange(f.len() - 6, f.len() as int));
    assert(":q"@ =~= q.subrange(q.len() - 2, q.len() as int));
    let at = heartbeat_prefix(key).len() - 4;
    assert(h.subrange(at, at + 4) =~= ":hb:"@);
    assert(found_at(h, ":hb:"@, at));
    assert(":will"@ =~= w.subrange(w.len() - ":will"@.len(), w.len() as int));
    assert(":data"@ =~= d.subrange(d.len() - ":data"@.len(), d.len() as int));
}

/// The first `c` stands at `at` when it stands there and nowhere before.
proof fn lemma_first_at(s: Seq<char>, c: char, from: int, at: int)
    requires
        0 <= from <= at < s.len(),
        s[at] == c,
        forall|i: int| from <= i < at ==> s[i] != c,
    ensures
        first_from(s, c, from) == Some(at),
    decreases at - from,
{
    if from < at {
        lemma_first_at(s, c, from + 1, at);
    }
}

/// There is no first where there is none.
proof fn lemma_none_from(s: Seq<char>, c: char, from: int)
    requires
        0 <= from <= s.len(),
        forall|i: int| from <= i < s.len() ==> s[i] != c,
    ensures
        first_from(s, c, from) is None,
    decreases s.len() - from,
{
    if from < s.len() {
        lemma_none_from(s, c, from + 1);
    }
}

/// The first stands where it is said to stand, and none before.
proof fn lemma_first_is(s: Seq<char>, c: char, from: int)
    requires
        0 <= from,
    ensures
        first_from(s, c, from) matches Some(at) ==> from <= at < s.len() && s[at] == c && forall|
            i: int,
        |
            from <= i < at ==> s[i] != c,
    decreases s.len() - from,
{
    if from < s.len() && s[from] != c {
        lemma_first_is(s, c, from + 1);
    }
}

/// A tag is not empty and holds no closing brace.
proof fn lemma_own_tag(key: Seq<char>)
    ensures
        own_tag(key) matches Some(tag) ==> tag.len() > 0 && !tag.contains('}'),
{
    if let Some(tag) = own_tag(key) {
        lemma_first_is(key, '{', 0);
        let open = first_from(key, '{', 0)->0;
        lemma_first_is(key, '}', open + 1);
    }
}

/// What is put in braces at the front is the tag.
proof fn lemma_tag_in_front(tag: Seq<char>, s: Seq<char>)
    requires
        !tag.contains('}'),
        tag.len() > 0,
        s.len() >= tag.len() + 2,
        s[0] == '{',
        s.subrange(1, tag.len() as int + 1) == tag,
        s[tag.len() as int + 1] == '}',
    ensures
        first_from(s, '}', 1) == Some(tag.len() as int + 1),
        own_tag(s) == Some(tag),
{
    lemma_first_at(s, '{', 0, 0);
    assert forall|i: int| 1 <= i < tag.len() as int + 1 implies s[i] != '}' by {
        assert(s.subrange(1, tag.len() as int + 1)[i - 1] == s[i]);
        assert(tag[i - 1] == s[i]);
    }
    lemma_first_at(s, '}', 1, tag.len() as int + 1);
}

/// What is kept beside a lock begins with the lock's tag in braces.
proof fn lemma_beside(key: Seq<char>, name: Seq<char>)
    requires
        taggable(key),
    ensures
        own_tag(beside(key, name)) == Some(hash_tag(key)),
        first_from(beside(key, name), '}', 1) == Some(hash_tag(key).len() as int + 1),
{
    reveal_strlit("{");
    reveal_strlit("}:");
    lemma_own_tag(key);
    let tag = hash_tag(key);
    let s = beside(key, name);
    assert(s.subrange(1, tag.len() as int + 1) =~= tag);
    lemma_tag_in_front(tag, s);
}

/// A lock shares its slot with whatever is kept beside it, such as its fence
/// counter, its queue, and the heartbeat of every waiter, so that one script
/// may touch them all.
pub proof fn lock_keys_share_one_slot(key: Seq<char>, name: Seq<char>, token: Seq<char>)
    requires
        taggable(key),
    ensures
        hash_tag(beside(key, name)) == hash_tag(key),
        hash_tag(fence_key(key)) == hash_tag(key),
        hash_tag(queue_key(key)) == hash_tag(key),
        hash_tag(heartbeat_prefix(key) + token) == hash_tag(key),
{
    lemma_beside(key, name);
    lemma_beside(key, "fence"@);
    lemma_beside(key, "q"@);
    lemma_beside(key, "hb:"@ + token);
    assert(heartbeat_prefix(key) + token =~= beside(key, "hb:"@ + token));
}

/// The keys that are not taggable cannot be helped: where a key has no tag of
/// its own and holds a closing brace, no other key whatsoever has its tag.
pub proof fn untaggable_keys_stand_alone(key: Seq<char>, other: Seq<char>)
    requires
        key.len() > 0,
        !taggable(key),
        hash_tag(other) == hash_tag(key),
    ensures
        other == key,
{
    lemma_own_tag(other);
}

/// Different locks keep different things beside them: no two locks share a
/// fence counter, a queue or a heartbeat.
pub proof fn locks_keep_their_own(a: Seq<char>, b: Seq<char>, name: Seq<char>)
    requires
        beside(a, name) == beside(b, name),
    ensures
        a == b,
{
    reveal_strlit("{");
    reveal_strlit("}:");
    reveal_strlit("::");
    let s = beside(a, name);
    let t = beside(b, name);
    let last = s.len() - name.len() - 2;
    assert(own_tag(a) is Some <==> s[last] == ':');
    assert(own_tag(b) is Some <==> t[last] == ':');
    if own_tag(a) is Some {
        lemma_own_tag(a);
        lemma_own_tag(b);
        lemma_beside(a, name);
        lemma_beside(b, name);
        let n = hash_tag(a).len() as int;
        assert(n == hash_tag(b).len());
        assert(s.subrange(n + 3, last) =~= a);
        assert(t.subrange(n + 3, last) =~= b);
    } else {
        assert(s.subrange(1, last) =~= a);
        assert(t.subrange(1, last) =~= b);
    }
}

/// The position of the first `c` in `xs` from `from` on.
fn find_from(xs: &Vec<char>, c: char, from: usize) -> (r: Option<usize>)
    requires
        from <= xs@.len(),
    ensures
        match first_from(xs@, c, from as int) {
            Some(at) => r matches Some(i) && i == at && from <= i < xs@.len(),
            None => r is None,
        },
{
    let mut i: usize = from;
    while i < xs.len()
        invariant
            from <= i <= xs@.len(),
            forall|j: int| from <= j < i ==> xs@[j] != c,
        decreases xs@.len() - i,
    {
        if xs[i] == c {
            proof {
                lemma_first_at(xs@, c, from as int, i as int);
            }
            return Some(i);
        }
        i += 1;
    }
    proof {
        lemma_none_from(xs@, c, from as int);
    }
    None
}

/// The tag that a key has in braces, if it has one.
pub fn own_tag_of(key: &str) -> (r: Option<String>)
    ensures
        match own_tag(key@) {
            Some(tag) => r matches Some(t) && t@ == tag,
            None => r is None,
        },
{
    let xs = chars_of(key);
    let open = match find_from(&xs, '{', 0) {
        Some(open) => open,
        None => {
            return None;
        },
    };
    let len: usize = xs.len();
    assert(open < len);
    let close = match find_from(&xs, '}', open + 1) {
        Some(close) => close,
        None => {
            return None;
        },
    };
    if close == open + 1 {
        return None;
    }
    let mut tag = String::new();
    let mut i: usize = open + 1;
    while i < close
        invariant
            open + 1 <= i <= close < xs@.len(),
            tag@ == xs@.subrange(open + 1, i as int),
        decreases close - i,
    {
        tag.push(xs[i]);
        proof {
            assert(xs@.subrange(open + 1, i + 1) =~= xs@.subrange(open + 1, i as int).push(
                xs@[i as int],
            ));
        }
        i += 1;
    }
    Some(tag)
}

/// The name of what is kept beside the lock `key` under `name`.
pub fn name_beside(key: &str, name: &str) -> (r: String)
    ensures
        r@ == beside(key@, name@),
{
    match own_tag_of(key) {
        Some(tag) => "{".to_owned().concat(tag.as_str()).concat("}:").concat(key).concat(
            "::",
        ).concat(name),
        None => "{".to_owned().concat(key).concat("}:").concat(name),
    }
}

} // verus!
