//! Quorum locking over independent masters.
//!
//! A grant needs the acceptance of `n / 2 + 1` nodes within the lease, so two
//! holders cannot both reach it for one key. Fences come from one allocator
//! node: per-node counters are not comparable.

use vstd::prelude::*;

use crate::command::{cmd, texts, Command, Invocation};
use crate::config::{may_meet, refused_url, words};
use crate::error::{backend, held, invalid, lost, Error, ErrorV};
use crate::fencing::FencingToken;
use crate::options::{below_floor, check_floor, min_ttl, LockOptions};
use crate::owner::OwnerId;
use crate::poll::{end_of_wait, Waiting};
use crate::single::{acquire_call, acquire_invocation, extend_call, extend_invocation, release_call,
    release_invocation, sendable};
use crate::span::{millis, Span};
use crate::text::{blank, decimal, decimal_of, is_blank};
use crate::watchdog::Renewal;

verus! {

/// Fewest masters of a ring.
pub const MIN_NODES: usize = 3;

/// The counter that fences come from.
pub const FENCE_ALLOCATOR: &'static str = "__palisade__:fence-allocator";

/// How many of `n` nodes must accept.
pub open spec fn quorum_of(n: nat) -> nat {
    n / 2 + 1
}

/// The endpoints of a ring.
#[derive(Debug)]
pub struct RedlockConfig {
    nodes: Vec<String>,
}

impl View for RedlockConfig {
    type V = Seq<Seq<char>>;

    closed spec fn view(&self) -> Seq<Seq<char>> {
        texts(self.nodes@)
    }
}

/// What is wrong with the endpoints, if anything: too few, or an empty one.
pub open spec fn ring_fault(nodes: Seq<Seq<char>>) -> Option<ErrorV> {
    if nodes.len() < 3 {
        Some(
            ErrorV::InvalidConfig(
                "redlock needs at least 3 independent masters, got "@ + decimal(nodes.len()),
            ),
        )
    } else if exists|i: int| 0 <= i < nodes.len() && blank(#[trigger] nodes[i]) {
        Some(ErrorV::InvalidConfig("empty redlock node url"@))
    } else {
        None
    }
}

impl RedlockConfig {
    /// Targets the given independent masters.
    pub fn new(nodes: Vec<String>) -> (r: Self)
        ensures
            r@ == texts(nodes@),
    {
        RedlockConfig { nodes }
    }

    /// Number of nodes.
    pub fn node_count(&self) -> (r: usize)
        ensures
            r == self@.len(),
    {
        self.nodes.len()
    }

    /// The endpoint at `i`.
    pub fn node(&self, i: usize) -> (r: &str)
        requires
            i < self@.len(),
        ensures
            r@ == self@[i as int],
    {
        self.nodes[i].as_str()
    }

    /// Refuses a ring of fewer than three masters, and an empty endpoint.
    pub fn validate(&self) -> (r: Result<(), Error>)
        ensures
            r is Ok <==> ring_fault(self@) is None,
            r matches Err(e) ==> ring_fault(self@) == Some(e@),
    {
        if self.nodes.len() < MIN_NODES {
            return Err(
                Error::InvalidConfig(
                    "redlock needs at least 3 independent masters, got ".to_owned().concat(
                        decimal_of(self.nodes.len() as u64).as_str(),
                    ),
                ),
            );
        }
        let mut i: usize = 0;
        while i < self.nodes.len()
            invariant
                0 <= i <= self.nodes@.len(),
                3 <= self.nodes@.len(),
                self@ == texts(self.nodes@),
                forall|j: int| 0 <= j < i ==> !blank(#[trigger] self@[j]),
            decreases self.nodes@.len() - i,
        {
            if is_blank(self.nodes[i].as_str()) {
                proof {
                    assert(blank(self@[i as int]));
                }
                return Err(invalid("empty redlock node url"));
            }
            i += 1;
        }
        Ok(())
    }
}

/// Quorum lock manager over independent masters.
#[derive(Clone, Copy, Debug)]
pub struct RedlockManager {
    pub nodes: usize,
    pub quorum: usize,
    pub default_ttl: Span,
}

impl RedlockManager {
    /// A ring of at least three nodes with its quorum.
    pub open spec fn wf(self) -> bool {
        self.nodes >= 3 && self.quorum == quorum_of(self.nodes as nat)
    }

    /// Begins to connect to the ring that `config` names. All nodes must be
    /// reachable.
    pub fn connect(config: RedlockConfig) -> (r: Result<RingDial, Error>)
        ensures
            r is Ok <==> ring_fault(config@) is None,
            r matches Err(e) ==> ring_fault(config@) == Some(e@),
            r matches Ok(d) ==> d.wf() && d.at == 0 && d.config@ == config@,
    {
        match config.validate() {
            Ok(()) => Ok(RingDial { config, at: 0 }),
            Err(e) => Err(e),
        }
    }

    /// Begins an acquisition round for a fresh owner.
    pub fn try_lock(&self, key: &str, options: &LockOptions) -> (r: Result<RedlockRound, Error>)
        ensures
            r is Ok <==> options.lease(self.default_ttl)@ >= min_ttl(),
            r matches Ok(p) ==> p.key@ == key@ && p.ttl == options.lease(self.default_ttl)
                && p.manager == *self && p.node == 0 && p.acquired@.len() == 0
                && p.owner.minted(),
            r matches Err(e) ==> e@ == ErrorV::InvalidConfig(
                below_floor("ttl "@, options.lease(self.default_ttl)@),
            ),
    {
        self.try_lock_as(key, OwnerId::generate(), options)
    }

    /// Begins an acquisition round for `owner`.
    pub fn try_lock_as(&self, key: &str, owner: OwnerId, options: &LockOptions) -> (r: Result<
        RedlockRound,
        Error,
    >)
        ensures
            r is Ok <==> options.lease(self.default_ttl)@ >= min_ttl(),
            r matches Ok(p) ==> p.key@ == key@ && p.owner == owner && p.ttl == options.lease(
                self.default_ttl,
            ) && p.manager == *self && p.node == 0 && p.acquired@.len() == 0,
            r matches Err(e) ==> e@ == ErrorV::InvalidConfig(
                below_floor("ttl "@, options.lease(self.default_ttl)@),
            ),
    {
        match options.checked_lease(self.default_ttl) {
            Ok(ttl) => Ok(
                RedlockRound {
                    manager: *self,
                    key: key.to_owned(),
                    owner,
                    ttl,
                    node: 0,
                    acquired: Vec::new(),
                },
            ),
            Err(e) => Err(e),
        }
    }

    /// Begins an acquisition round with the manager's default lease.
    pub fn try_lock_default(&self, key: &str) -> (r: Result<RedlockRound, Error>)
        ensures
            r is Ok <==> self.default_ttl@ >= min_ttl(),
            r matches Ok(p) ==> p.key@ == key@ && p.ttl == self.default_ttl && p.manager == *self
                && p.node == 0 && p.acquired@.len() == 0 && p.owner.minted(),
            r matches Err(e) ==> e@ == ErrorV::InvalidConfig(
                below_floor("ttl "@, self.default_ttl@),
            ),
    {
        self.try_lock(key, &LockOptions::new())
    }

    /// Begins a wait for `key` at `now`: full rounds are tried with jittered
    /// sleeps between them.
    pub fn try_lock_for(&self, key: &str, wait: &Span, now: u128) -> (r: Waiting)
        ensures
            r.key@ == key@,
            r.deadline == end_of_wait(now, wait@),
            !r.clipped,
    {
        Waiting::start(key, wait, now)
    }
}

/// A ring that is being connected to, node by node.
#[derive(Debug)]
pub struct RingDial {
    pub config: RedlockConfig,
    /// How many nodes have been reached.
    pub at: usize,
}

/// What connecting to a ring does next.
#[derive(Debug)]
pub enum RingStep {
    /// Dial this endpoint.
    Dial(String),
    /// All nodes have been reached.
    Done(RedlockManager),
}

impl RingDial {
    /// A sound ring, of which no more nodes have been reached than it has.
    pub open spec fn wf(self) -> bool {
        ring_fault(self.config@) is None && self.at <= self.config@.len()
    }

    /// `r` is what follows when `refusal` is what the next endpoint meets with.
    pub open spec fn follows(
        self,
        refusal: Option<Seq<char>>,
        r: Result<RingStep, Error>,
    ) -> bool {
        if self.at == self.config@.len() {
            r matches Ok(RingStep::Done(m)) && m.wf() && m.nodes == self.config@.len()
                && m.default_ttl@ == 30_000_000_000
        } else {
            let url = self.config@[self.at as int];
            match refusal {
                Some(m) => r matches Err(e) && e@ == ErrorV::InvalidConfig(
                    "bad redlock url `"@ + url + "`: "@ + m,
                ),
                None => r matches Ok(RingStep::Dial(u)) && u@ == url,
            }
        }
    }

    /// The next node to dial, or the manager once all have been reached. An
    /// endpoint that cannot be read ends the connecting.
    pub fn next_step(&self) -> (r: Result<RingStep, Error>)
        requires
            self.wf(),
        ensures
            exists|refusal: Option<Seq<char>>| #[trigger]
                self.follows(refusal, r) && (self.at < self.config@.len() ==> may_meet(
                    self.config@[self.at as int],
                    refusal,
                )),
    {
        let refusal = if self.at < self.config.node_count() {
            refused_url(self.config.node(self.at))
        } else {
            None
        };
        let ghost met = words(refusal);
        let r = self.step_after(refusal);
        proof {
            assert(self.follows(met, r));
        }
        r
    }

    /// What follows, given whether the next endpoint was refused.
    pub fn step_after(&self, refusal: Option<String>) -> (r: Result<RingStep, Error>)
        requires
            self.wf(),
        ensures
            self.follows(words(refusal), r),
    {
        let n = self.config.node_count();
        if self.at == n {
            return Ok(
                RingStep::Done(
                    RedlockManager {
                        nodes: n,
                        quorum: n / 2 + 1,
                        default_ttl: Span::from_secs(30),
                    },
                ),
            );
        }
        let url = self.config.node(self.at);
        match refusal {
            Some(m) => Err(
                Error::InvalidConfig(
                    "bad redlock url `".to_owned().concat(url).concat("`: ").concat(m.as_str()),
                ),
            ),
            None => Ok(RingStep::Dial(url.to_owned())),
        }
    }

    /// Takes how dialling the next node went. A node that cannot be reached
    /// ends the connecting.
    pub fn dialled(&mut self, outcome: Result<(), String>) -> (r: Result<(), Error>)
        requires
            old(self).wf(),
            old(self).at < old(self).config@.len(),
        ensures
            final(self).wf(),
            final(self).config == old(self).config,
            match outcome {
                Ok(()) => r is Ok && final(self).at == old(self).at + 1,
                Err(m) => {
                    &&& final(self).at == old(self).at
                    &&& r matches Err(e) && e@ == ErrorV::Backend(
                        "redlock connect "@ + old(self).config@[old(self).at as int] + ": "@ + m@,
                    )
                },
            },
    {
        match outcome {
            Ok(()) => {
                let n: usize = self.config.node_count();
                if self.at < n {
                    self.at = self.at + 1;
                }
                Ok(())
            },
            Err(m) => Err(
                Error::Backend(
                    "redlock connect ".to_owned().concat(self.config.node(self.at)).concat(
                        ": ",
                    ).concat(m.as_str()),
                ),
            ),
        }
    }
}

/// How one node answered an acquisition.
#[derive(Debug)]
pub enum NodeAnswer {
    /// Its status and its own fence counter, which is not used.
    Answer(i64, i64),
    /// It failed with these words.
    Failed(String),
    /// Its slice of the round ran out.
    TimedOut,
}

/// The node accepted.
pub open spec fn accepted(a: NodeAnswer) -> bool {
    a matches NodeAnswer::Answer(status, _) && (status == 1 || status == 2)
}

/// The positions of the nodes that accepted, in order, when the nodes answered
/// `answers`.
pub open spec fn acceptors(answers: Seq<NodeAnswer>) -> Seq<usize>
    decreases answers.len(),
{
    if answers.len() == 0 {
        seq![]
    } else {
        let before = acceptors(answers.drop_last());
        if accepted(answers.last()) {
            before.push((answers.len() - 1) as usize)
        } else {
            before
        }
    }
}

/// The longest that one node may take in a round for a lease of length `ttl`.
pub open spec fn node_slice(ttl: nat) -> nat {
    (if millis(ttl) / 4 < 100 {
        100nat
    } else {
        millis(ttl) / 4
    }) * 1_000_000
}

/// A silent node never eats the whole round: it costs at most a quarter of any
/// lease of 400 ms or more.
pub proof fn silent_nodes_leave_most_of_the_lease(ttl: nat)
    requires
        ttl >= 400_000_000,
    ensures
        node_slice(ttl) * 4 <= ttl,
{
}

/// One acquisition round: the nodes are asked one after the other.
#[derive(Debug)]
pub struct RedlockRound {
    pub manager: RedlockManager,
    pub key: String,
    pub owner: OwnerId,
    pub ttl: Span,
    /// The node to ask next.
    pub node: usize,
    /// The nodes that accepted.
    pub acquired: Vec<usize>,
}

/// How a round ends.
#[derive(Debug)]
pub enum RoundEnd {
    /// A quorum accepted in time; the fence is still to be allocated.
    Quorum(PendingFence),
    /// Send the call to each of these nodes in order, then report the error.
    RolledBack(Vec<usize>, Invocation, Error),
}

/// Nodes below `n`, each one once and in ascending order.
pub open spec fn ascending(nodes: Seq<usize>, n: int) -> bool {
    &&& forall|i: int| 0 <= i < nodes.len() ==> #[trigger] nodes[i] < n
    &&& forall|i: int, j: int| 0 <= i < j < nodes.len() ==> nodes[i] < nodes[j]
}

impl RedlockRound {
    /// The nodes that accepted are among those asked, each named once.
    pub open spec fn wf(self) -> bool {
        &&& self.manager.wf()
        &&& self.node <= self.manager.nodes
        &&& ascending(self.acquired@, self.node as int)
    }

    /// The longest that one node may take: a quarter of the lease, but at
    /// least 100 ms, so that a silent node never eats the whole round.
    pub fn slice(&self) -> (r: Span)
        ensures
            r@ == node_slice(self.ttl@),
    {
        let quarter: u64 = self.ttl.as_millis() / 4;
        Span::from_millis(
            if quarter < 100 {
                100
            } else {
                quarter
            },
        )
    }

    /// The call to send to each node.
    pub fn invocation(&self) -> (r: Invocation)
        requires
            sendable(self.ttl@),
        ensures
            r@ == acquire_call(self.key@, self.owner.token_text(), self.ttl@),
    {
        acquire_invocation(self.key.as_str(), self.owner.token().as_str(), &self.ttl)
    }

    /// Takes the answer of the next node. One that refuses or is too slow is
    /// passed over. One that fails ends the round at once: what was taken is to
    /// be given back, and its failure reported.
    pub fn answered(&mut self, answer: NodeAnswer) -> (r: Option<RoundEnd>)
        requires
            old(self).wf(),
            old(self).node < old(self).manager.nodes,
        ensures
            final(self).wf(),
            final(self).manager == old(self).manager,
            final(self).key == old(self).key,
            final(self).owner == old(self).owner,
            final(self).ttl == old(self).ttl,
            final(self).node == old(self).node + 1,
            final(self).acquired@ == if accepted(answer) {
                old(self).acquired@.push(old(self).node)
            } else {
                old(self).acquired@
            },
            match answer {
                NodeAnswer::Failed(m) => r matches Some(end) && old(self).given_back(
                    end,
                    ErrorV::Backend(
                        "redlock node "@ + decimal(old(self).node as nat) + ": "@ + m@,
                    ),
                ),
                _ => r is None,
            },
    {
        let i: usize = self.node;
        self.node = i + 1;
        match answer {
            NodeAnswer::Answer(status, _) => {
                if status == 1 || status == 2 {
                    self.acquired.push(i);
                }
                None
            },
            NodeAnswer::Failed(m) => {
                let e = Error::Backend(
                    "redlock node ".to_owned().concat(decimal_of(i as u64).as_str()).concat(
                        ": ",
                    ).concat(m.as_str()),
                );
                Some(self.give_back(e))
            },
            NodeAnswer::TimedOut => None,
        }
    }

    /// `end` gives back what the nodes of this round have taken, and reports
    /// `e`.
    pub open spec fn given_back(self, end: RoundEnd, e: ErrorV) -> bool {
        end matches RoundEnd::RolledBack(nodes, call, why) && nodes@ == self.acquired@ && call@
            == release_call(self.key@, self.owner.token_text()) && why@ == e
    }

    fn give_back(&self, why: Error) -> (r: RoundEnd)
        ensures
            self.given_back(r, why@),
    {
        let mut nodes: Vec<usize> = Vec::new();
        let mut i: usize = 0;
        while i < self.acquired.len()
            invariant
                0 <= i <= self.acquired@.len(),
                nodes@ == self.acquired@.take(i as int),
            decreases self.acquired@.len() - i,
        {
            nodes.push(self.acquired[i]);
            proof {
                assert(self.acquired@.take(i + 1) =~= self.acquired@.take(i as int).push(
                    self.acquired@[i as int],
                ));
            }
            i += 1;
        }
        proof {
            assert(self.acquired@.take(self.acquired@.len() as int) =~= self.acquired@);
        }
        let call = release_invocation(self.key.as_str(), self.owner.token().as_str());
        RoundEnd::RolledBack(nodes, call, why)
    }

    /// Ends a round in which every node was asked. It is a grant if a quorum
    /// accepted and the round left enough of the lease; otherwise all that was
    /// taken is given back and the key counts as held.
    pub fn conclude(self, in_time: bool) -> (r: RoundEnd)
        requires
            self.wf(),
            self.node == self.manager.nodes,
        ensures
            if self.acquired@.len() >= self.manager.quorum && in_time {
                r matches RoundEnd::Quorum(p) && p.key@ == self.key@ && p.owner == self.owner
                    && p.ttl == self.ttl && p.manager == self.manager
            } else {
                self.given_back(r, (ErrorV::Held { key: self.key@ }))
            },
    {
        if self.acquired.len() >= self.manager.quorum && in_time {
            RoundEnd::Quorum(
                PendingFence {
                    manager: self.manager,
                    key: self.key,
                    owner: self.owner,
                    ttl: self.ttl,
                },
            )
        } else {
            self.give_back(held(self.key.as_str()))
        }
    }
}

/// A quorum grant whose fence is still to be allocated.
#[derive(Debug)]
pub struct PendingFence {
    pub manager: RedlockManager,
    pub key: String,
    pub owner: OwnerId,
    pub ttl: Span,
}

impl PendingFence {
    /// Asks the allocator, the first node, for the next fence.
    pub fn allocate_fence(&self) -> (r: Command)
        ensures
            r@ == cmd("INCR"@).text(FENCE_ALLOCATOR@),
    {
        Command::named("INCR").text(FENCE_ALLOCATOR)
    }

    /// The handle under the allocated fence. It is always watched.
    pub fn make_handle(self, reply: Result<i64, String>) -> (r: Result<RedlockHandle, Error>)
        ensures
            match reply {
                Ok(v) => r matches Ok(h) && h.key@ == self.key@ && h.owner == self.owner
                    && h.fence@ == v as u64 && h.ttl == self.ttl && h.manager == self.manager
                    && !h.gone && !h.poisoned,
                Err(m) => r matches Err(e) && e@ == ErrorV::Backend(
                    "fence allocation failed: "@ + m@,
                ),
            },
    {
        match reply {
            Ok(v) => Ok(
                RedlockHandle {
                    manager: self.manager,
                    key: self.key,
                    owner: self.owner,
                    fence: FencingToken::new(v as u64),
                    ttl: self.ttl,
                    gone: false,
                    poisoned: false,
                },
            ),
            Err(m) => Err(backend("fence allocation failed: ", m.as_str())),
        }
    }
}

/// How many nodes confirmed.
pub open spec fn confirmations(replies: Seq<Option<i64>>) -> nat
    decreases replies.len(),
{
    if replies.len() == 0 {
        0
    } else {
        confirmations(replies.drop_last()) + if replies.last() == Some(1i64) {
            1nat
        } else {
            0nat
        }
    }
}

/// Some node answered, and not by a confirmation.
pub open spec fn contradicted(replies: Seq<Option<i64>>) -> bool {
    exists|i: int| 0 <= i < replies.len() && #[trigger] replies[i] is Some && replies[i] != Some(1i64)
}

/// A quorum-held lock.
#[derive(Debug)]
pub struct RedlockHandle {
    pub manager: RedlockManager,
    pub key: String,
    pub owner: OwnerId,
    pub fence: FencingToken,
    pub ttl: Span,
    /// A release was begun.
    pub gone: bool,
    /// The quorum is known to be lost.
    pub poisoned: bool,
}

impl RedlockHandle {
    /// The error of an operation on a lease that is no longer ours.
    pub open spec fn lost_error(self) -> ErrorV {
        ErrorV::Lost { key: self.key@, fence: self.fence@ }
    }

    /// The lock key.
    pub fn key(&self) -> (r: &str)
        ensures
            r@ == self.key@,
    {
        self.key.as_str()
    }

    /// Identity of this acquisition.
    pub fn owner(&self) -> (r: &OwnerId)
        ensures
            *r == self.owner,
    {
        &self.owner
    }

    /// Fence from the allocator.
    pub fn fence(&self) -> (r: FencingToken)
        ensures
            r == self.fence,
    {
        self.fence
    }

    /// Whether the quorum is known to be lost.
    pub fn is_lost(&self) -> (r: bool)
        ensures
            r == self.poisoned,
    {
        self.poisoned
    }

    /// Claims the one release of this handle; false when it was claimed before.
    pub fn mark_gone(&mut self) -> (r: bool)
        ensures
            r == !old(self).gone,
            *final(self) == (RedlockHandle { gone: true, ..*old(self) }),
    {
        let first = !self.gone;
        self.gone = true;
        first
    }

    /// Records that the quorum is lost.
    pub fn mark_lost(&mut self)
        ensures
            *final(self) == (RedlockHandle { poisoned: true, ..*old(self) }),
    {
        self.poisoned = true;
    }

    /// Begins a renewal to `ttl`: the call to send to every node.
    pub fn extend(&self, ttl: &Span) -> (r: Result<Invocation, Error>)
        requires
            sendable(ttl@),
        ensures
            if ttl@ < min_ttl() {
                r matches Err(e) && e@ == ErrorV::InvalidConfig(below_floor("extend ttl "@, ttl@))
            } else if self.gone {
                r matches Err(e) && e@ == self.lost_error()
            } else {
                r matches Ok(i) && i@ == extend_call(self.key@, self.owner.token_text(), ttl@)
            },
    {
        match check_floor("extend ttl ", ttl) {
            Ok(()) => {},
            Err(e) => {
                return Err(e);
            },
        }
        if self.gone {
            return Err(lost(self.key.as_str(), self.fence.value()));
        }
        Ok(extend_invocation(self.key.as_str(), self.owner.token().as_str(), ttl))
    }

    /// The renewal that the watchdog sends to every node.
    pub fn renewal(&self) -> (r: Invocation)
        requires
            sendable(self.ttl@),
        ensures
            r@ == extend_call(self.key@, self.owner.token_text(), self.ttl@),
    {
        extend_invocation(self.key.as_str(), self.owner.token().as_str(), &self.ttl)
    }

    /// What the nodes' answers to a renewal mean, `None` standing for no
    /// answer: a quorum of confirmations renews; short of it, any other answer
    /// says that the lease is not ours; otherwise nothing was learnt.
    pub fn fire_extend(&self, replies: &Vec<Option<i64>>) -> (r: Renewal)
        ensures
            r == if confirmations(replies@) >= self.manager.quorum {
                Renewal::Renewed
            } else if contradicted(replies@) {
                Renewal::NotOwner
            } else {
                Renewal::Failed
            },
    {
        let mut ok: usize = 0;
        let mut saw_not_owner = false;
        let mut i: usize = 0;
        while i < replies.len()
            invariant
                0 <= i <= replies@.len(),
                ok == confirmations(replies@.take(i as int)),
                ok <= i,
                saw_not_owner == contradicted(replies@.take(i as int)),
            decreases replies@.len() - i,
        {
            proof {
                let upto = replies@.take(i + 1);
                assert(upto.drop_last() =~= replies@.take(i as int));
                assert(upto.last() == replies@[i as int]);
                if contradicted(replies@.take(i as int)) {
                    let k = choose|k: int|
                        0 <= k < i && #[trigger] replies@.take(i as int)[k] is Some
                            && replies@.take(i as int)[k] != Some(1i64);
                    assert(upto[k] is Some && upto[k] != Some(1i64));
                }
                if contradicted(upto) && !contradicted(replies@.take(i as int)) {
                    let k = choose|k: int|
                        0 <= k < upto.len() && #[trigger] upto[k] is Some && upto[k] != Some(1i64);
                    if k < i {
                        assert(replies@.take(i as int)[k] == upto[k]);
                    }
                }
                assert(upto[i as int] == replies@[i as int]);
            }
            match replies[i] {
                Some(n) => if n == 1 {
                    ok += 1;
                } else {
                    saw_not_owner = true;
                },
                None => {},
            }
            i += 1;
        }
        proof {
            assert(replies@.take(replies@.len() as int) =~= replies@);
        }
        if ok >= self.manager.quorum {
            Renewal::Renewed
        } else if saw_not_owner {
            Renewal::NotOwner
        } else {
            Renewal::Failed
        }
    }

    /// What the answers to [`RedlockHandle::extend`] mean for its caller. A
    /// lost lease poisons the handle.
    pub fn extended(&mut self, replies: &Vec<Option<i64>>) -> (r: Result<(), Error>)
        ensures
            if confirmations(replies@) >= old(self).manager.quorum {
                r is Ok && *final(self) == *old(self)
            } else if contradicted(replies@) {
                &&& r matches Err(e) && e@ == old(self).lost_error()
                &&& *final(self) == (RedlockHandle { poisoned: true, ..*old(self) })
            } else {
                &&& r matches Err(e) && e@ == ErrorV::Backend("extend round failed on all nodes"@)
                &&& *final(self) == *old(self)
            },
    {
        match self.fire_extend(replies) {
            Renewal::Renewed => Ok(()),
            Renewal::NotOwner => {
                self.mark_lost();
                Err(lost(self.key.as_str(), self.fence.value()))
            },
            Renewal::Failed => Err(Error::Backend("extend round failed on all nodes".to_owned())),
        }
    }

    /// Begins the release, also on drop: the call to send to every node, or
    /// `None` where it was begun before, which counts as success.
    pub fn release(&mut self) -> (r: Option<Invocation>)
        ensures
            *final(self) == (RedlockHandle { gone: true, ..*old(self) }),
            r is None <==> old(self).gone,
            r matches Some(i) ==> i@ == release_call(
                old(self).key@,
                old(self).owner.token_text(),
            ),
    {
        if !self.mark_gone() {
            return None;
        }
        Some(release_invocation(self.key.as_str(), self.owner.token().as_str()))
    }

    /// What the nodes' answers to a release mean, `None` standing for no
    /// answer: one confirmation is enough; short of it, a zero says that the
    /// lease was lost; otherwise the release failed.
    pub fn run_release(&self, replies: &Vec<Option<i64>>) -> (r: Result<(), Error>)
        ensures
            if replies@.contains(Some(1i64)) {
                r is Ok
            } else if replies@.contains(Some(0i64)) {
                r matches Err(e) && e@ == self.lost_error()
            } else {
                r matches Err(e) && e@ == ErrorV::Backend("release failed on all nodes"@)
            },
    {
        let mut released_any = false;
        let mut saw_not_owner = false;
        let mut i: usize = 0;
        while i < replies.len()
            invariant
                0 <= i <= replies@.len(),
                released_any == exists|k: int| 0 <= k < i && #[trigger] replies@[k] == Some(1i64),
                saw_not_owner == exists|k: int| 0 <= k < i && #[trigger] replies@[k] == Some(0i64),
            decreases replies@.len() - i,
        {
            match replies[i] {
                Some(n) => if n == 1 {
                    released_any = true;
                    proof {
                        assert(replies@[i as int] == Some(1i64));
                    }
                } else if n == 0 {
                    saw_not_owner = true;
                    proof {
                        assert(replies@[i as int] == Some(0i64));
                    }
                },
                None => {},
            }
            i += 1;
        }
        if released_any {
            Ok(())
        } else if saw_not_owner {
            Err(lost(self.key.as_str(), self.fence.value()))
        } else {
            Err(Error::Backend("release failed on all nodes".to_owned()))
        }
    }
}

/// A round remembers exactly the nodes that accepted: taking the answers of
/// all nodes in order, a position is recorded if and only if its node
/// accepted, and the record names each node once, in order.
pub proof fn a_round_records_exactly_the_acceptors(answers: Seq<NodeAnswer>)
    requires
        answers.len() <= usize::MAX,
    ensures
        ascending(acceptors(answers), answers.len() as int),
        forall|i: usize|
            #![trigger acceptors(answers).contains(i)]
            acceptors(answers).contains(i) <==> i < answers.len() && accepted(answers[i as int]),
    decreases answers.len(),
{
    if answers.len() > 0 {
        let rest = answers.drop_last();
        a_round_records_exactly_the_acceptors(rest);
        let n = (answers.len() - 1) as usize;
        let before = acceptors(rest);
        let after = acceptors(answers);
        assert forall|i: usize| #[trigger] after.contains(i) <==> i < answers.len() && accepted(
            answers[i as int],
        ) by {
            if i < n {
                assert(answers[i as int] == rest[i as int]);
            }
            if before.contains(i) {
                let k = choose|k: int| 0 <= k < before.len() && before[k] == i;
                assert(after[k] == i);
            }
            if accepted(answers.last()) {
                assert(after[before.len() as int] == n);
            }
            if after.contains(i) {
                let k = choose|k: int| 0 <= k < after.len() && after[k] == i;
                if k < before.len() {
                    assert(before[k] == i);
                }
            }
        }
    }
}

/// Two quorums of one ring always meet: whatever nodes accepted two rounds, if
/// both rounds reached the quorum then some node accepted both.
pub proof fn two_quorums_share_a_node(n: usize, a: Seq<usize>, b: Seq<usize>)
    requires
        ascending(a, n as int),
        ascending(b, n as int),
        a.len() >= quorum_of(n as nat),
        b.len() >= quorum_of(n as nat),
    ensures
        exists|node: usize| a.contains(node) && b.contains(node),
{
    if forall|node: usize| !(a.contains(node) && b.contains(node)) {
        let sa = Set::new(|x: int| 0 <= x < n && a.contains(x as usize));
        let sb = Set::new(|x: int| 0 <= x < n && b.contains(x as usize));
        let all = vstd::set_lib::set_int_range(0, n as int);
        vstd::set_lib::lemma_int_range(0, n as int);
        assert(sa.subset_of(all));
        assert(sb.subset_of(all));
        vstd::set_lib::lemma_len_subset(sa, all);
        vstd::set_lib::lemma_len_subset(sb, all);
        lemma_ascending_len(a, n);
        lemma_ascending_len(b, n);
        assert(sa.disjoint(sb));
        vstd::set_lib::lemma_set_disjoint_lens(sa, sb);
        assert((sa + sb).subset_of(all));
        vstd::set_lib::lemma_len_subset(sa + sb, all);
        assert(false);
    }
}

/// Two owners cannot both hold one key: where no node accepted both rounds,
/// not both rounds reached the quorum.
pub proof fn two_owners_never_both_reach_quorum(n: usize, a: Seq<usize>, b: Seq<usize>)
    requires
        ascending(a, n as int),
        ascending(b, n as int),
        forall|node: usize| !(#[trigger] a.contains(node) && b.contains(node)),
    ensures
        a.len() < quorum_of(n as nat) || b.len() < quorum_of(n as nat),
{
    if a.len() >= quorum_of(n as nat) && b.len() >= quorum_of(n as nat) {
        two_quorums_share_a_node(n, a, b);
    }
}

/// Distinct nodes are as many as their set has members.
proof fn lemma_ascending_len(a: Seq<usize>, n: usize)
    requires
        ascending(a, n as int),
    ensures
        Set::new(|x: int| 0 <= x < n && a.contains(x as usize)).len() == a.len(),
        Set::new(|x: int| 0 <= x < n && a.contains(x as usize)).finite(),
    decreases a.len(),
{
    let s = Set::new(|x: int| 0 <= x < n && a.contains(x as usize));
    if a.len() == 0 {
        assert(s =~= Set::empty());
    } else {
        let rest = a.drop_last();
        let sr = Set::new(|x: int| 0 <= x < n && rest.contains(x as usize));
        assert(ascending(rest, n as int));
        lemma_ascending_len(rest, n);
        let last = a.last() as int;
        assert(!rest.contains(last as usize)) by {
            if rest.contains(last as usize) {
                let k = choose|k: int| 0 <= k < rest.len() && rest[k] == last as usize;
                assert(a[k] < a[a.len() - 1]);
            }
        }
        assert forall|x: int| s.contains(x) <==> sr.insert(last).contains(x) by {
            if s.contains(x) {
                let k = choose|k: int| 0 <= k < a.len() && a[k] == x as usize;
                if k < rest.len() {
                    assert(rest[k] == x as usize);
                } else {
                    assert(x as usize == a.last());
                }
            }
            if sr.contains(x) {
                let k = choose|k: int| 0 <= k < rest.len() && rest[k] == x as usize;
                assert(a[k] == x as usize);
            }
            assert(a[a.len() - 1] == a.last());
        }
        assert(s =~= sr.insert(last));
    }
}

} // verus!
