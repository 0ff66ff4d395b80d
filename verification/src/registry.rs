//! Who holds which key, so that quotas are counted truthfully: a slot is freed
//! by an unlock and by a forced unlock alike.

use vstd::prelude::*;

use crate::table::Table;

verus! {

/// The keys that `principal` holds when `holders` says who holds each key.
pub open spec fn keys_of(
    holders: Map<Seq<char>, Seq<char>>,
    principal: Seq<char>,
) -> Set<Seq<char>> {
    holders.dom().filter(|k: Seq<char>| holders[k] == principal)
}

/// How many keys `principal` holds when `holders` says who holds each key.
pub open spec fn held_by(holders: Map<Seq<char>, Seq<char>>, principal: Seq<char>) -> nat {
    keys_of(holders, principal).len()
}

/// The holders after a grant of `key` to `principal`, whose ceiling is
/// `max_keys` (0 for none): nothing changes where the key is tracked already
/// or the ceiling is reached.
pub open spec fn after_acquire(
    holders: Map<Seq<char>, Seq<char>>,
    key: Seq<char>,
    principal: Seq<char>,
    max_keys: u32,
) -> Map<Seq<char>, Seq<char>> {
    if holders.dom().contains(key) || at_ceiling(holders, principal, max_keys) {
        holders
    } else {
        holders.insert(key, principal)
    }
}

/// `principal` holds as many keys as it may (0 for no limit).
pub open spec fn at_ceiling(
    holders: Map<Seq<char>, Seq<char>>,
    principal: Seq<char>,
    max_keys: u32,
) -> bool {
    max_keys > 0 && held_by(holders, principal) >= max_keys
}

/// Tracks who holds which key.
#[derive(Debug)]
pub struct HeldRegistry {
    /// Principal by key.
    holders: Table<String>,
    /// Number of held keys by principal.
    counts: Table<usize>,
}

spec fn principals(holders: Map<Seq<char>, String>) -> Map<Seq<char>, Seq<char>> {
    holders.map_values(|p: String| p@)
}

spec fn counted(counts: Map<Seq<char>, usize>, principal: Seq<char>) -> nat {
    if counts.dom().contains(principal) {
        counts[principal] as nat
    } else {
        0
    }
}

impl View for HeldRegistry {
    type V = Map<Seq<char>, Seq<char>>;

    closed spec fn view(&self) -> Map<Seq<char>, Seq<char>> {
        principals(self.holders@)
    }
}

impl HeldRegistry {
    /// Every count is the number of keys that the principal holds.
    #[verifier::type_invariant]
    spec fn counts_are_true(self) -> bool {
        forall|p: Seq<char>| #[trigger]
            counted(self.counts@, p) == held_by(principals(self.holders@), p)
    }

    /// A registry that tracks nothing.
    pub fn new() -> (r: Self)
        ensures
            r@ == Map::<Seq<char>, Seq<char>>::empty(),
    {
        let holders: Table<String> = Table::new();
        let counts: Table<usize> = Table::new();
        proof {
            let m = principals(holders@);
            assert(m =~= Map::<Seq<char>, Seq<char>>::empty());
            assert forall|p: Seq<char>| #[trigger] counted(counts@, p) == held_by(m, p) by {
                assert(keys_of(m, p) =~= Set::empty());
            }
        }
        HeldRegistry { holders, counts }
    }

    /// Registers a grant of `key` to `principal`. False when the principal is
    /// at its ceiling, and then nothing changes. A key that is tracked already
    /// is let pass and stays with its holder.
    pub fn try_acquire(&mut self, key: &str, principal: &str, max_keys: u32) -> (r: bool)
        ensures
            final(self)@ == after_acquire(old(self)@, key@, principal@, max_keys),
            r == (old(self)@.dom().contains(key@) || !at_ceiling(
                old(self)@,
                principal@,
                max_keys,
            )),
    {
        proof {
            use_type_invariant(&*self);
        }
        if self.holders.contains(key) {
            return true;
        }
        let cur: usize = match self.counts.get(principal) {
            Some(n) => *n,
            None => 0,
        };
        proof {
            assert(cur == counted(self.counts@, principal@));
        }
        if max_keys > 0 && cur as u64 >= max_keys as u64 {
            return false;
        }
        let mut me = HeldRegistry::new();
        std::mem::swap(&mut me, self);
        let HeldRegistry { mut holders, mut counts } = me;
        let ghost m = principals(holders@);
        let ghost c = counts@;
        holders.insert(key.to_owned(), principal.to_owned());
        let n1: usize = holders.len();
        proof {
            assert(principals(holders@) =~= m.insert(key@, principal@));
            assert(m.dom().finite()) by {
                assert(m.dom() =~= holders@.dom().remove(key@));
            }
            grant_takes_one_slot(m, key@, principal@, principal@);
            lemma_held_at_most(m.insert(key@, principal@), principal@);
            assert(m.insert(key@, principal@).dom() =~= holders@.dom());
            assert(cur + 1 <= n1);
        }
        counts.insert(principal.to_owned(), cur + 1);
        proof {
            assert forall|p: Seq<char>| #[trigger] counted(counts@, p) == held_by(
                m.insert(key@, principal@),
                p,
            ) by {
                grant_takes_one_slot(m, key@, principal@, p);
                assert(counted(c, p) == held_by(m, p));
            }
        }
        *self = HeldRegistry { holders, counts };
        true
    }

    /// Frees the slot under `key` and says whose it was, if anyone's.
    pub fn release(&mut self, key: &str) -> (r: Option<String>)
        ensures
            final(self)@ == old(self)@.remove(key@),
            match r {
                Some(p) => old(self)@.dom().contains(key@) && p@ == old(self)@[key@],
                None => !old(self)@.dom().contains(key@),
            },
    {
        proof {
            use_type_invariant(&*self);
        }
        let mut me = HeldRegistry::new();
        std::mem::swap(&mut me, self);
        let HeldRegistry { mut holders, mut counts } = me;
        let ghost m = principals(holders@);
        let ghost c = counts@;
        let n: usize = holders.len();
        proof {
            assert(m.dom() =~= holders@.dom());
        }
        match holders.remove(key) {
            None => {
                proof {
                    assert(principals(holders@) =~= m);
                    assert(m.remove(key@) =~= m);
                }
                *self = HeldRegistry { holders, counts };
                None
            },
            Some(owner) => {
                proof {
                    assert(principals(holders@) =~= m.remove(key@));
                    release_frees_the_holders_slot(m, key@, owner@);
                    assert(counted(c, owner@) == held_by(m, owner@));
                }
                let cur: usize = match counts.get(owner.as_str()) {
                    Some(k) => *k,
                    None => 0,
                };
                counts.insert(owner.clone(), cur - 1);
                proof {
                    assert forall|p: Seq<char>| #[trigger] counted(counts@, p) == held_by(
                        m.remove(key@),
                        p,
                    ) by {
                        release_frees_the_holders_slot(m, key@, p);
                        assert(counted(c, p) == held_by(m, p));
                    }
                }
                *self = HeldRegistry { holders, counts };
                Some(owner)
            },
        }
    }
}

/// A principal holds no more keys than are held.
proof fn lemma_held_at_most(holders: Map<Seq<char>, Seq<char>>, principal: Seq<char>)
    requires
        holders.dom().finite(),
    ensures
        keys_of(holders, principal).finite(),
        held_by(holders, principal) <= holders.dom().len(),
{
    assert(keys_of(holders, principal).subset_of(holders.dom()));
    vstd::set_lib::lemma_len_subset(keys_of(holders, principal), holders.dom());
}

/// A grant of a key that nobody held takes one slot of its holder, and none of
/// anyone else.
pub proof fn grant_takes_one_slot(
    holders: Map<Seq<char>, Seq<char>>,
    key: Seq<char>,
    holder: Seq<char>,
    principal: Seq<char>,
)
    requires
        holders.dom().finite(),
        !holders.dom().contains(key),
    ensures
        held_by(holders.insert(key, holder), principal) == held_by(holders, principal) + (
        if principal == holder {
            1nat
        } else {
            0nat
        }),
{
    let after = holders.insert(key, holder);
    lemma_held_at_most(holders, principal);
    if principal == holder {
        assert(keys_of(after, principal) =~= keys_of(holders, principal).insert(key));
    } else {
        assert(keys_of(after, principal) =~= keys_of(holders, principal));
    }
}

/// Freeing a key gives its holder one slot back, and nobody else: after a
/// forced unlock too, the slot of the original holder is the one that is freed.
pub proof fn release_frees_the_holders_slot(
    holders: Map<Seq<char>, Seq<char>>,
    key: Seq<char>,
    principal: Seq<char>,
)
    requires
        holders.dom().finite(),
        holders.dom().contains(key),
    ensures
        held_by(holders, principal) == held_by(holders.remove(key), principal) + (if principal
            == holders[key] {
            1nat
        } else {
            0nat
        }),
{
    let rest = holders.remove(key);
    grant_takes_one_slot(rest, key, holders[key], principal);
    assert(rest.insert(key, holders[key]) =~= holders);
}

/// Unlocking undoes a grant: a key that was granted and freed again leaves the
/// registry as it was.
pub proof fn freed_keys_leave_no_trace(
    holders: Map<Seq<char>, Seq<char>>,
    key: Seq<char>,
    principal: Seq<char>,
    max_keys: u32,
)
    requires
        !holders.dom().contains(key),
    ensures
        after_acquire(holders, key, principal, max_keys).remove(key) == holders,
{
    assert(after_acquire(holders, key, principal, max_keys).remove(key) =~= holders);
}

/// What happens to a registry.
pub enum RegistryOp {
    Acquire { key: Seq<char>, principal: Seq<char>, max_keys: u32 },
    Release { key: Seq<char> },
}

/// The holders after `ops`, starting from none.
pub open spec fn after_ops(ops: Seq<RegistryOp>) -> Map<Seq<char>, Seq<char>>
    decreases ops.len(),
{
    if ops.len() == 0 {
        Map::empty()
    } else {
        let before = after_ops(ops.drop_last());
        match ops.last() {
            RegistryOp::Acquire { key, principal, max_keys } => after_acquire(
                before,
                key,
                principal,
                max_keys,
            ),
            RegistryOp::Release { key } => before.remove(key),
        }
    }
}

/// If `op` is a grant to `principal`, it is made under the ceiling `max_keys`.
pub open spec fn under_ceiling(op: RegistryOp, principal: Seq<char>, max_keys: u32) -> bool {
    match op {
        RegistryOp::Acquire { principal: p, max_keys: m, .. } => p == principal ==> m == max_keys,
        RegistryOp::Release { .. } => true,
    }
}

/// No principal ever holds more keys than its ceiling, whatever grants and
/// releases, its own and others', came before.
pub proof fn quotas_are_never_exceeded(
    ops: Seq<RegistryOp>,
    principal: Seq<char>,
    max_keys: u32,
)
    requires
        max_keys > 0,
        forall|i: int| 0 <= i < ops.len() ==> under_ceiling(#[trigger] ops[i], principal, max_keys),
    ensures
        after_ops(ops).dom().finite(),
        held_by(after_ops(ops), principal) <= max_keys,
    decreases ops.len(),
{
    if ops.len() == 0 {
        assert(keys_of(Map::empty(), principal) =~= Set::empty());
    } else {
        let rest = ops.drop_last();
        assert forall|i: int| 0 <= i < rest.len() implies under_ceiling(
            #[trigger] rest[i],
            principal,
            max_keys,
        ) by {
            assert(rest[i] == ops[i]);
        }
        quotas_are_never_exceeded(rest, principal, max_keys);
        let before = after_ops(rest);
        assert(ops.last() == ops[ops.len() - 1]);
        match ops.last() {
            RegistryOp::Acquire { key, principal: p, max_keys: m } => {
                if !before.dom().contains(key) && !at_ceiling(before, p, m) {
                    grant_takes_one_slot(before, key, p, principal);
                }
            },
            RegistryOp::Release { key } => {
                if before.dom().contains(key) {
                    release_frees_the_holders_slot(before, key, principal);
                } else {
                    assert(before.remove(key) =~= before);
                }
            },
        }
    }
}

} // verus!
