//! Quorum locks: majorities, and what the nodes' answers come to.

use vstd::prelude::*;

use crate::command::{ArgV, Command, Invocation, ProgramV, Script};
use crate::error::{Error, ErrorV};
use crate::options::LockOptions;
use crate::owner::OwnerId;
use crate::redlock::{confirmations, contradicted, quorum_of, NodeAnswer, PendingFence,
    RedlockConfig, RedlockHandle, RedlockManager, RedlockRound, RingDial, RingStep, RoundEnd};
use crate::single::fence_key;
use crate::span::Span;
use crate::text::{blank, decimal};
use crate::watchdog::Renewal;

verus! {

/// Confirmations are counted wherever they stand.
pub proof fn confirmations_are_counted(replies: Seq<Option<i64>>)
    ensures
        confirmations(replies) == replies.to_multiset().count(Some(1i64)),
    decreases replies.len(),
{
    broadcast use vstd::seq_lib::group_to_multiset_ensures;

    if replies.len() > 0 {
        confirmations_are_counted(replies.drop_last());
        assert(replies =~= replies.drop_last().push(replies.last()));
    } else {
        assert(replies =~= Seq::<Option<i64>>::empty());
        assert(replies.to_multiset().count(Some(1i64)) == 0);
    }
}

/// A lease is renewed if and only if a quorum of nodes confirmed it, whatever
/// the others answered. Without a quorum it is lost where a node denied it, and
/// the renewal failed where none did.
pub proof fn renewals_go_by_the_quorum(h: RedlockHandle, replies: Vec<Option<i64>>, r: Renewal)
    requires
        call_ensures(RedlockHandle::fire_extend, (&h, &replies), r),
    ensures
        r == Renewal::Renewed <==> replies@.to_multiset().count(Some(1i64)) >= h.manager.quorum,
        r != Renewal::Renewed ==> (r == Renewal::NotOwner <==> exists|i: int|
            0 <= i < replies@.len() && (#[trigger] replies@[i] matches Some(n) && n != 1)),
        r == Renewal::Renewed || r == Renewal::NotOwner || r == Renewal::Failed,
{
    confirmations_are_counted(replies@);
}

/// The order in which the nodes answer does not matter.
pub proof fn renewals_take_answers_in_any_order(
    h: RedlockHandle,
    first: Vec<Option<i64>>,
    second: Vec<Option<i64>>,
    r: Renewal,
    q: Renewal,
)
    requires
        first@.to_multiset() == second@.to_multiset(),
        call_ensures(RedlockHandle::fire_extend, (&h, &first), r),
        call_ensures(RedlockHandle::fire_extend, (&h, &second), q),
    ensures
        r == q,
{
    broadcast use vstd::seq_lib::group_to_multiset_ensures;

    renewals_go_by_the_quorum(h, first, r);
    renewals_go_by_the_quorum(h, second, q);
    lemma_same_denials(first@, second@);
    lemma_same_denials(second@, first@);
}

proof fn lemma_same_denials(a: Seq<Option<i64>>, b: Seq<Option<i64>>)
    requires
        a.to_multiset() == b.to_multiset(),
    ensures
        contradicted(a) ==> contradicted(b),
{
    broadcast use vstd::seq_lib::group_to_multiset_ensures;

    if contradicted(a) {
        let i = choose|i: int|
            0 <= i < a.len() && #[trigger] a[i] is Some && a[i] != Some(1i64);
        assert(a.contains(a[i]));
        assert(b.to_multiset().count(a[i]) > 0);
        assert(b.contains(a[i]));
        let j = choose|j: int| 0 <= j < b.len() && b[j] == a[i];
        assert(b[j] is Some && b[j] != Some(1i64));
    }
}

/// An extension ends as the renewal does: a quorum keeps the lock, a denial
/// without a quorum makes it lost, and silence changes nothing.
pub proof fn extensions_end_as_renewals_do(
    h: &mut RedlockHandle,
    replies: Vec<Option<i64>>,
    renewal: Renewal,
    r: Result<(), Error>,
)
    requires
        call_ensures(RedlockHandle::fire_extend, (&*h, &replies), renewal),
        call_ensures(RedlockHandle::extended, (h, &replies), r),
    ensures
        r is Ok <==> replies@.to_multiset().count(Some(1i64)) >= old(h).manager.quorum,
        r is Ok <==> renewal == Renewal::Renewed,
        renewal == Renewal::NotOwner ==> (r matches Err(e) && e@ == (ErrorV::Lost {
            key: old(h).key@,
            fence: old(h).fence@,
        })),
        renewal == Renewal::Failed ==> (r matches Err(e) && e@ is Backend),
        final(h).poisoned == (old(h).poisoned || renewal == Renewal::NotOwner),
        final(h).key == old(h).key && final(h).owner == old(h).owner && final(h).fence == old(
            h,
        ).fence && final(h).ttl == old(h).ttl && final(h).gone == old(h).gone && final(h).manager
            == old(h).manager,
{
    confirmations_are_counted(replies@);
}

/// A quorum is the smallest majority.
pub proof fn quorums_are_the_smallest_majority(n: nat)
    ensures
        2 * quorum_of(n) > n,
        2 * (quorum_of(n) - 1) <= n,
{
}

/// A ring is refused if it has fewer than three endpoints or an empty one, and
/// for no other reason.
pub proof fn rings_need_three_masters(config: RedlockConfig, r: Result<RingDial, Error>)
    requires
        call_ensures(RedlockManager::connect, (config,), r),
    ensures
        r is Ok <==> config@.len() >= 3 && forall|i: int|
            0 <= i < config@.len() ==> !blank(#[trigger] config@[i]),
        r matches Ok(d) ==> d.config@ == config@ && d.at == 0,
        config@.len() < 3 ==> (r matches Err(e) && e@ == ErrorV::InvalidConfig(
            "redlock needs at least 3 independent masters, got "@ + decimal(config@.len()),
        )),
        r matches Err(e) ==> e@ is InvalidConfig,
{
}

/// Validation refuses what a connection would.
pub proof fn rings_are_validated_as_they_connect(
    config: RedlockConfig,
    checked: Result<(), Error>,
    r: Result<RingDial, Error>,
)
    requires
        call_ensures(RedlockConfig::validate, (&config,), checked),
        call_ensures(RedlockManager::connect, (config,), r),
    ensures
        checked is Ok <==> r is Ok,
        match (checked, r) {
            (Err(a), Err(b)) => a@ == b@,
            _ => true,
        },
{
}

/// A ring is dialled endpoint by endpoint and then needs a majority of all.
pub proof fn rings_are_dialled_in_order(
    dial: RingDial,
    refusal: Option<String>,
    r: Result<RingStep, Error>,
)
    requires
        dial.wf(),
        call_ensures(RingDial::step_after, (&dial, refusal), r),
    ensures
        dial.at < dial.config@.len() && refusal is None ==> (r matches Ok(RingStep::Dial(url))
            && url@ == dial.config@[dial.at as int]),
        dial.at < dial.config@.len() && refusal is Some ==> (r matches Err(e)
            && e@ is InvalidConfig),
        dial.at == dial.config@.len() ==> (r matches Ok(RingStep::Done(m)) && m.nodes
            == dial.config@.len() && 2 * m.quorum > m.nodes && 2 * (m.quorum - 1) <= m.nodes
            && m.default_ttl@ == 30_000_000_000),
{
}

/// A round asks every node for the same lock under one owner.
pub proof fn rounds_ask_for_one_lock(round: RedlockRound, i: Invocation)
    requires
        round.ttl@ / 1_000_000 <= 1_000_000_000_000_000_000,
        call_ensures(RedlockRound::invocation, (&round,), i),
    ensures
        i@.program == ProgramV::Known(Script::Acquire),
        i@.keys == seq![round.key@, fence_key(round.key@)],
        i@.args == seq![
            ArgV::Text(round.owner.token_text()),
            ArgV::Int((round.ttl@ / 1_000_000) as u64),
            ArgV::Int((round.ttl@ / 1_000_000 * 10) as u64),
        ],
{
    assert(i@.keys =~= seq![round.key@, fence_key(round.key@)]);
    assert(i@.args =~= seq![
        ArgV::Text(round.owner.token_text()),
        ArgV::Int((round.ttl@ / 1_000_000) as u64),
        ArgV::Int((round.ttl@ / 1_000_000 * 10) as u64),
    ]);
}

/// A node accepts with a status of 1 or 2, and only then is it recorded; a node
/// that fails ends the round, and everything recorded is given back.
pub proof fn nodes_are_recorded_as_they_answer(
    round: &mut RedlockRound,
    answer: NodeAnswer,
    r: Option<RoundEnd>,
)
    requires
        old(round).wf(),
        old(round).node < old(round).manager.nodes,
        call_ensures(RedlockRound::answered, (round, answer), r),
    ensures
        answer matches NodeAnswer::Answer(status, _) ==> final(round).acquired@ == (if status == 1
            || status == 2 {
            old(round).acquired@.push(old(round).node)
        } else {
            old(round).acquired@
        }),
        !(answer is Answer) ==> final(round).acquired@ == old(round).acquired@,
        r is Some <==> answer is Failed,
        r matches Some(end) ==> (end matches RoundEnd::RolledBack(nodes, call, why) && nodes@
            == old(round).acquired@ && call@.program == ProgramV::Known(Script::Release)
            && call@.keys == seq![old(round).key@, fence_key(old(round).key@)] && call@.args
            == seq![ArgV::Text(old(round).owner.token_text())]),
        r is Some ==> (r->0 matches RoundEnd::RolledBack(_, _, why) && why@ == ErrorV::Backend(
            "redlock node "@ + decimal(old(round).node as nat) + ": "@ + answer->Failed_0@,
        )),
        final(round).node == old(round).node + 1,
        final(round).key == old(round).key && final(round).owner == old(round).owner
            && final(round).ttl == old(round).ttl && final(round).manager == old(round).manager,
{
    if let Some(end) = r {
        if let RoundEnd::RolledBack(nodes, call, why) = end {
            assert(call@.keys =~= seq![old(round).key@, fence_key(old(round).key@)]);
            assert(call@.args =~= seq![ArgV::Text(old(round).owner.token_text())]);
        }
    }
}

/// A round is won by a majority of all nodes in time, and by nothing less; a
/// round that is not won gives back exactly what it took.
pub proof fn rounds_are_won_by_a_majority(round: RedlockRound, in_time: bool, r: RoundEnd)
    requires
        round.wf(),
        round.node == round.manager.nodes,
        call_ensures(RedlockRound::conclude, (round, in_time), r),
    ensures
        r is Quorum <==> in_time && 2 * round.acquired@.len() > round.manager.nodes,
        r matches RoundEnd::Quorum(p) ==> p.key@ == round.key@ && p.owner == round.owner && p.ttl
            == round.ttl && p.manager == round.manager,
        r matches RoundEnd::RolledBack(nodes, call, why) ==> nodes@ == round.acquired@
            && call@.program == ProgramV::Known(Script::Release) && call@.keys == seq![
            round.key@,
            fence_key(round.key@),
        ] && call@.args == seq![ArgV::Text(round.owner.token_text())] && why@ == (ErrorV::Held {
            key: round.key@,
        }),
{
    if let RoundEnd::RolledBack(nodes, call, why) = r {
        assert(call@.keys =~= seq![round.key@, fence_key(round.key@)]);
        assert(call@.args =~= seq![ArgV::Text(round.owner.token_text())]);
    }
}

/// A silent node costs a quarter of the lease, and never less than a tenth of a
/// second.
pub proof fn silent_nodes_cost_a_quarter(round: RedlockRound, r: Span)
    requires
        round.ttl@ / 1_000_000 < 0x1_0000_0000_0000_0000,
        call_ensures(RedlockRound::slice, (&round,), r),
    ensures
        r@ >= 100_000_000,
        r@ % 1_000_000 == 0,
        r@ > 100_000_000 ==> 4 * r@ <= round.ttl@ < 4 * (r@ + 1_000_000),
        r@ == 100_000_000 ==> round.ttl@ < 4 * 101_000_000,
{
    let q = round.ttl@ / 1_000_000 / 4;
    assert(q == round.ttl@ / 4_000_000);
    assert((q * 1_000_000) % 1_000_000 == 0);
    assert((100 * 1_000_000nat) % 1_000_000 == 0);
}

/// The fence of a quorum comes from one counter for all keys.
pub proof fn fences_come_from_one_counter(p: PendingFence, c: Command)
    requires
        call_ensures(PendingFence::allocate_fence, (&p,), c),
    ensures
        c@.name == "INCR"@,
        c@.args == seq![ArgV::Text("__palisade__:fence-allocator"@)],
{
    assert(c@.args =~= seq![ArgV::Text("__palisade__:fence-allocator"@)]);
}

/// A quorum becomes a handle under the fence that was allocated.
pub proof fn quorums_become_handles(
    p: PendingFence,
    reply: Result<i64, String>,
    r: Result<RedlockHandle, Error>,
)
    requires
        call_ensures(PendingFence::make_handle, (p, reply), r),
    ensures
        r is Ok <==> reply is Ok,
        r matches Ok(h) ==> h.key@ == p.key@ && h.owner == p.owner && h.ttl == p.ttl && h.manager
            == p.manager && !h.gone && !h.poisoned && (reply->Ok_0 >= 0 ==> h.fence@
            == reply->Ok_0),
        r matches Err(e) ==> e@ is Backend,
{
}

/// A round is begun as its options ask: under the lease that they give or the
/// default, refused below ten milliseconds.
pub proof fn rounds_are_begun_as_asked(
    m: RedlockManager,
    key: &str,
    owner: OwnerId,
    options: LockOptions,
    r: Result<RedlockRound, Error>,
)
    requires
        call_ensures(RedlockManager::try_lock_as, (&m, key, owner, &options), r),
    ensures
        ({
            let lease = if options.ttl is Some {
                options.ttl->0
            } else {
                m.default_ttl
            };
            &&& r is Ok <==> lease@ >= 10_000_000
            &&& r matches Ok(p) ==> p.key@ == key@ && p.owner == owner && p.ttl == lease
                && p.manager == m && p.node == 0 && p.acquired@.len() == 0
            &&& r matches Err(e) ==> e@ is InvalidConfig
        }),
{
}

/// A release is sent once, under the token that holds the lock.
pub proof fn quorum_locks_are_released_once(h: &mut RedlockHandle, r: Option<Invocation>)
    requires
        call_ensures(RedlockHandle::release, (h,), r),
    ensures
        r is Some <==> !old(h).gone,
        final(h).gone,
        final(h).key == old(h).key && final(h).owner == old(h).owner && final(h).fence == old(
            h,
        ).fence && final(h).poisoned == old(h).poisoned,
        r matches Some(i) ==> i@.program == ProgramV::Known(Script::Release) && i@.keys == seq![
            old(h).key@,
            fence_key(old(h).key@),
        ] && i@.args == seq![ArgV::Text(old(h).owner.token_text())],
{
    if let Some(i) = r {
        assert(i@.keys =~= seq![old(h).key@, fence_key(old(h).key@)]);
        assert(i@.args =~= seq![ArgV::Text(old(h).owner.token_text())]);
    }
}

/// A release counts as done if any node freed the lock; without one it says that
/// the lock was lost if any node said so, and otherwise that it failed.
pub proof fn one_node_suffices_for_a_release(
    h: RedlockHandle,
    replies: Vec<Option<i64>>,
    r: Result<(), Error>,
)
    requires
        call_ensures(RedlockHandle::run_release, (&h, &replies), r),
    ensures
        r is Ok <==> exists|i: int| 0 <= i < replies@.len() && #[trigger] replies@[i] == Some(1i64),
        r matches Err(e) ==> (e@ is Lost <==> exists|i: int|
            0 <= i < replies@.len() && #[trigger] replies@[i] == Some(0i64)),
        r matches Err(e) ==> e@ is Lost || e@ is Backend,
{
}

/// A renewal asks for the lease that the lock was taken with; an extension for
/// the one that is given, unless it is too short or the lock is gone.
pub proof fn quorum_locks_are_renewed_in_full(
    h: RedlockHandle,
    ttl: Span,
    renewal: Invocation,
    r: Result<Invocation, Error>,
)
    requires
        h.ttl@ / 1_000_000 <= 1_000_000_000_000_000_000,
        ttl@ / 1_000_000 <= 1_000_000_000_000_000_000,
        call_ensures(RedlockHandle::renewal, (&h,), renewal),
        call_ensures(RedlockHandle::extend, (&h, &ttl), r),
    ensures
        renewal@.program == ProgramV::Known(Script::Extend),
        renewal@.keys == seq![h.key@, fence_key(h.key@)],
        renewal@.args == seq![
            ArgV::Text(h.owner.token_text()),
            ArgV::Int((h.ttl@ / 1_000_000) as u64),
            ArgV::Int((h.ttl@ / 1_000_000 * 10) as u64),
        ],
        r is Ok <==> ttl@ >= 10_000_000 && !h.gone,
        r matches Ok(i) ==> i@.program == renewal@.program && i@.keys == renewal@.keys && i@.args
            == seq![
            ArgV::Text(h.owner.token_text()),
            ArgV::Int((ttl@ / 1_000_000) as u64),
            ArgV::Int((ttl@ / 1_000_000 * 10) as u64),
        ],
        ttl@ >= 10_000_000 && h.gone ==> (r matches Err(e) && e@ == (ErrorV::Lost {
            key: h.key@,
            fence: h.fence@,
        })),
{
    assert(renewal@.keys =~= seq![h.key@, fence_key(h.key@)]);
    assert(renewal@.args =~= seq![
        ArgV::Text(h.owner.token_text()),
        ArgV::Int((h.ttl@ / 1_000_000) as u64),
        ArgV::Int((h.ttl@ / 1_000_000 * 10) as u64),
    ]);
    if let Ok(i) = r {
        assert(i@.keys =~= renewal@.keys);
        assert(i@.args =~= seq![
            ArgV::Text(h.owner.token_text()),
            ArgV::Int((ttl@ / 1_000_000) as u64),
            ArgV::Int((ttl@ / 1_000_000 * 10) as u64),
        ]);
    }
}

} // verus!
