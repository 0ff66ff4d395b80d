//! A table from names to values.

use vstd::prelude::*;

use crate::command::texts;
use crate::text::same;

verus! {

/// A table from names to values, each name at most once.
#[derive(Debug)]
pub struct Table<V> {
    entries: Vec<(String, V)>,
}

/// The names of the entries.
spec fn names<V>(entries: Seq<(String, V)>) -> Seq<Seq<char>> {
    entries.map_values(|e: (String, V)| e.0@)
}

spec fn as_map<V>(entries: Seq<(String, V)>) -> Map<Seq<char>, V> {
    Map::new(
        |k: Seq<char>| names(entries).contains(k),
        |k: Seq<char>| entries[names(entries).index_of(k)].1,
    )
}

impl<V> View for Table<V> {
    type V = Map<Seq<char>, V>;

    closed spec fn view(&self) -> Map<Seq<char>, V> {
        as_map(self.entries@)
    }
}

/// An entry is found under its name.
proof fn lemma_entry<V>(entries: Seq<(String, V)>, i: int)
    requires
        names(entries).no_duplicates(),
        0 <= i < entries.len(),
    ensures
        as_map(entries).dom().contains(entries[i].0@),
        as_map(entries)[entries[i].0@] == entries[i].1,
{
    let ks = names(entries);
    assert(ks[i] == entries[i].0@);
    let j = ks.index_of(ks[i]);
    assert(0 <= j < ks.len() && ks[j] == ks[i]);
}

/// One more entry under a new name.
proof fn lemma_pushed<V>(entries: Seq<(String, V)>, key: String, v: V)
    requires
        names(entries).no_duplicates(),
        !names(entries).contains(key@),
    ensures
        names(entries.push((key, v))).no_duplicates(),
        as_map(entries.push((key, v))) == as_map(entries).insert(key@, v),
{
    let after = entries.push((key, v));
    assert(names(after) =~= names(entries).push(key@));
    let m = as_map(entries).insert(key@, v);
    assert forall|k: Seq<char>| as_map(after).dom().contains(k) <==> m.dom().contains(k) by {
        if names(entries).contains(k) {
            let i = names(entries).index_of(k);
            assert(names(after)[i] == k);
        }
        assert(names(after)[entries.len() as int] == key@);
        if names(after).contains(k) && k != key@ {
            let i = names(after).index_of(k);
            assert(names(entries)[i] == k);
        }
    }
    assert forall|k: Seq<char>| m.dom().contains(k) implies #[trigger] as_map(after)[k] == m[k] by {
        let i = names(after).index_of(k);
        assert(0 <= i < after.len() && names(after)[i] == k);
        lemma_entry(after, i);
        if k != key@ {
            lemma_entry(entries, i);
        }
    }
    assert(as_map(after) =~= m);
}

/// Without the entry at `i`.
proof fn lemma_removed<V>(entries: Seq<(String, V)>, i: int)
    requires
        names(entries).no_duplicates(),
        0 <= i < entries.len(),
    ensures
        names(entries.remove(i)).no_duplicates(),
        as_map(entries.remove(i)) == as_map(entries).remove(entries[i].0@),
{
    let after = entries.remove(i);
    let key = entries[i].0@;
    assert(names(after) =~= names(entries).remove(i));
    assert forall|a: int, b: int| 0 <= a < after.len() && 0 <= b < after.len() && a != b implies names(
        after,
    )[a] != names(after)[b] by {
        let x = if a < i {
            a
        } else {
            a + 1
        };
        let y = if b < i {
            b
        } else {
            b + 1
        };
        assert(names(after)[a] == names(entries)[x]);
        assert(names(after)[b] == names(entries)[y]);
    }
    let m = as_map(entries).remove(key);
    assert forall|k: Seq<char>| as_map(after).dom().contains(k) <==> m.dom().contains(k) by {
        if names(after).contains(k) {
            let a = names(after).index_of(k);
            let x = if a < i {
                a
            } else {
                a + 1
            };
            assert(names(entries)[x] == k);
            assert(names(entries)[i] == key);
        }
        if names(entries).contains(k) && k != key {
            let x = names(entries).index_of(k);
            let a = if x < i {
                x
            } else {
                x - 1
            };
            assert(names(after)[a] == k);
        }
    }
    assert forall|k: Seq<char>| m.dom().contains(k) implies #[trigger] as_map(after)[k] == m[k] by {
        let a = names(after).index_of(k);
        assert(0 <= a < after.len() && names(after)[a] == k);
        lemma_entry(after, a);
        lemma_entry(
            entries,
            if a < i {
                a
            } else {
                a + 1
            },
        );
    }
    assert(as_map(after) =~= m);
}

impl<V> Table<V> {
    #[verifier::type_invariant]
    spec fn distinct(self) -> bool {
        names(self.entries@).no_duplicates()
    }

    /// An empty table.
    pub fn new() -> (r: Self)
        ensures
            r@ == Map::<Seq<char>, V>::empty(),
    {
        let r = Table { entries: Vec::new() };
        proof {
            assert(r@ =~= Map::<Seq<char>, V>::empty());
        }
        r
    }

    /// The position of the entry named `key`.
    fn position(entries: &Vec<(String, V)>, key: &str) -> (r: Option<usize>)
        ensures
            match r {
                Some(i) => i < entries@.len() && entries@[i as int].0@ == key@,
                None => !names(entries@).contains(key@),
            },
    {
        let mut i: usize = 0;
        while i < entries.len()
            invariant
                0 <= i <= entries@.len(),
                forall|j: int| 0 <= j < i ==> names(entries@)[j] != key@,
            decreases entries@.len() - i,
        {
            if same(entries[i].0.as_str(), key) {
                return Some(i);
            }
            i += 1;
        }
        None
    }

    /// Number of entries.
    pub fn len(&self) -> (r: usize)
        ensures
            self@.dom().finite(),
            r == self@.dom().len(),
    {
        proof {
            use_type_invariant(self);
            let ks = names(self.entries@);
            ks.unique_seq_to_set();
            assert(self@.dom() =~= ks.to_set());
        }
        self.entries.len()
    }

    /// Whether there is an entry named `key`.
    pub fn contains(&self, key: &str) -> (r: bool)
        ensures
            r == self@.dom().contains(key@),
    {
        match Self::position(&self.entries, key) {
            Some(i) => {
                proof {
                    assert(names(self.entries@)[i as int] == key@);
                }
                true
            },
            None => false,
        }
    }

    /// The value under `key`.
    pub fn get(&self, key: &str) -> (r: Option<&V>)
        ensures
            match r {
                Some(v) => self@.dom().contains(key@) && *v == self@[key@],
                None => !self@.dom().contains(key@),
            },
    {
        match Self::position(&self.entries, key) {
            Some(i) => {
                proof {
                    use_type_invariant(self);
                    lemma_entry(self.entries@, i as int);
                }
                Some(&self.entries[i].1)
            },
            None => None,
        }
    }

    /// Takes the entry named `key` out.
    pub fn remove(&mut self, key: &str) -> (r: Option<V>)
        ensures
            final(self)@ == old(self)@.remove(key@),
            match r {
                Some(v) => old(self)@.dom().contains(key@) && v == old(self)@[key@],
                None => !old(self)@.dom().contains(key@),
            },
    {
        proof {
            use_type_invariant(&*self);
        }
        let mut entries: Vec<(String, V)> = Vec::new();
        std::mem::swap(&mut entries, &mut self.entries);
        match Self::position(&entries, key) {
            Some(i) => {
                proof {
                    lemma_entry(entries@, i as int);
                    lemma_removed(entries@, i as int);
                }
                let (_, v) = entries.remove(i);
                self.entries = entries;
                Some(v)
            },
            None => {
                proof {
                    assert(as_map(entries@).remove(key@) =~= as_map(entries@));
                }
                self.entries = entries;
                None
            },
        }
    }

    /// Puts `v` under `key` and hands back what stood there.
    pub fn insert(&mut self, key: String, v: V) -> (r: Option<V>)
        ensures
            final(self)@ == old(self)@.insert(key@, v),
            match r {
                Some(w) => old(self)@.dom().contains(key@) && w == old(self)@[key@],
                None => !old(self)@.dom().contains(key@),
            },
    {
        let before = self.remove(key.as_str());
        proof {
            use_type_invariant(&*self);
        }
        let ghost rest = self@;
        let mut entries: Vec<(String, V)> = Vec::new();
        std::mem::swap(&mut entries, &mut self.entries);
        proof {
            assert(!rest.dom().contains(key@));
            lemma_pushed(entries@, key, v);
            assert(old(self)@.remove(key@).insert(key@, v) =~= old(self)@.insert(key@, v));
        }
        entries.push((key, v));
        self.entries = entries;
        before
    }

    /// The names, each once.
    pub fn keys(&self) -> (r: Vec<String>)
        ensures
            texts(r@).no_duplicates(),
            forall|k: Seq<char>| #[trigger]
                texts(r@).contains(k) <==> self@.dom().contains(k),
    {
        proof {
            use_type_invariant(self);
        }
        let mut out: Vec<String> = Vec::new();
        let mut i: usize = 0;
        while i < self.entries.len()
            invariant
                0 <= i <= self.entries@.len(),
                texts(out@) == names(self.entries@).take(i as int),
            decreases self.entries@.len() - i,
        {
            let ghost before = texts(out@);
            let name = self.entries[i].0.clone();
            out.push(name);
            proof {
                assert(texts(out@) =~= before.push(name@));
                assert(texts(out@) =~= names(self.entries@).take(i + 1));
            }
            i += 1;
        }
        proof {
            assert(texts(out@) =~= names(self.entries@));
        }
        out
    }
}

} // verus!
