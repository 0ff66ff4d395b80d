//! The watchdog: when a lease is renewed, and when it is given up for lost.

use vstd::prelude::*;

use crate::span::Span;

verus! {

/// The lease is renewed every `RENEWAL_DIVISOR`-th of its length, so two
/// renewals must fail before its end is at risk.
pub const RENEWAL_DIVISOR: u32 = 3;

/// Consecutive failures to reach the store after which the lease counts as
/// lost. An answer that names another owner counts at once.
pub const MAX_CONSECUTIVE_RENEW_FAILURES: u32 = 2;

/// The outcome of one renewal.
#[derive(Clone, Copy, Debug, PartialEq, Eq, Structural)]
pub enum Renewal {
    /// The store extended the lease.
    Renewed,
    /// The store says that the lease is not ours.
    NotOwner,
    /// The store gave no answer.
    Failed,
}

/// What the watchdog does after a renewal.
#[derive(Clone, Copy, Debug, PartialEq, Eq, Structural)]
pub enum WatchdogStep {
    /// Sleep and renew again.
    Continue,
    /// Poison the handle and stop.
    Lost,
}

/// A watchdog's state after a run of renewals: how many of the latest ones
/// failed in a row, and whether the lease was given up.
pub struct WatchdogRun {
    pub failures: nat,
    pub lost: bool,
}

/// The state after `outcomes`, starting fresh. Once given up, a lease stays so.
pub open spec fn watchdog_run(outcomes: Seq<Renewal>) -> WatchdogRun
    decreases outcomes.len(),
{
    if outcomes.len() == 0 {
        WatchdogRun { failures: 0, lost: false }
    } else {
        watchdog_after(watchdog_run(outcomes.drop_last()), outcomes.last())
    }
}

/// The state after one more renewal.
pub open spec fn watchdog_after(before: WatchdogRun, outcome: Renewal) -> WatchdogRun {
    if before.lost {
        before
    } else {
        match outcome {
            Renewal::Renewed => WatchdogRun { failures: 0, lost: false },
            Renewal::NotOwner => WatchdogRun { failures: before.failures, lost: true },
            Renewal::Failed => WatchdogRun {
                failures: before.failures + 1,
                lost: before.failures + 1 >= 2,
            },
        }
    }
}

/// How long the watchdog of a lease of length `ttl` sleeps between renewals.
pub open spec fn renewal_period(ttl: nat) -> nat {
    ttl / 3
}

/// The watchdog of one lease.
#[derive(Debug)]
pub struct Watchdog {
    failures: u32,
    lost: bool,
}

impl View for Watchdog {
    type V = WatchdogRun;

    closed spec fn view(&self) -> WatchdogRun {
        WatchdogRun { failures: self.failures as nat, lost: self.lost }
    }
}

impl Watchdog {
    #[verifier::type_invariant]
    spec fn in_range(self) -> bool {
        !self.lost ==> self.failures < 2
    }

    /// A watchdog that has renewed nothing yet.
    pub fn new() -> (r: Self)
        ensures
            r@ == watchdog_run(seq![]),
    {
        Watchdog { failures: 0, lost: false }
    }

    /// How long to sleep between renewals of a lease of length `ttl`.
    pub fn period(ttl: &Span) -> (r: Span)
        ensures
            r@ == renewal_period(ttl@),
    {
        ttl.divided_by(RENEWAL_DIVISOR)
    }

    /// Whether to renew on waking: not after the last handle is gone, nor
    /// after a release.
    pub fn should_renew(alive: bool, released: bool) -> (r: bool)
        ensures
            r == (alive && !released),
    {
        alive && !released
    }

    /// Takes the outcome of a renewal and says what to do next.
    pub fn after_renewal(&mut self, outcome: Renewal) -> (r: WatchdogStep)
        ensures
            final(self)@ == watchdog_after(old(self)@, outcome),
            r == if final(self)@.lost {
                WatchdogStep::Lost
            } else {
                WatchdogStep::Continue
            },
    {
        proof {
            use_type_invariant(&*self);
        }
        if self.lost {
            return WatchdogStep::Lost;
        }
        match outcome {
            Renewal::Renewed => {
                *self = Watchdog { failures: 0, lost: false };
                WatchdogStep::Continue
            },
            Renewal::NotOwner => {
                self.lost = true;
                WatchdogStep::Lost
            },
            Renewal::Failed => {
                let failures: u32 = self.failures + 1;
                let lost = failures >= MAX_CONSECUTIVE_RENEW_FAILURES;
                *self = Watchdog { failures, lost };
                if lost {
                    WatchdogStep::Lost
                } else {
                    WatchdogStep::Continue
                }
            },
        }
    }
}

/// A run of renewals that costs the lease: one of them says that it is not
/// ours, or two in a row got no answer.
pub open spec fn fatal(outcomes: Seq<Renewal>) -> bool {
    exists|i: int| #[trigger] fatal_at(outcomes, i)
}

/// The renewal at `i` settles that the lease is lost.
pub open spec fn fatal_at(outcomes: Seq<Renewal>, i: int) -> bool {
    &&& 0 <= i < outcomes.len()
    &&& outcomes[i] == Renewal::NotOwner || (i > 0 && outcomes[i] == Renewal::Failed && outcomes[i
        - 1] == Renewal::Failed)
}

/// The watchdog gives a lease up exactly when some renewal says that it is
/// not ours, or two renewals in a row get no answer: a definite loss is never
/// overlooked, and a single unanswered renewal costs nothing.
pub proof fn watchdog_gives_up_exactly_on_loss(outcomes: Seq<Renewal>)
    ensures
        watchdog_run(outcomes).lost == fatal(outcomes),
        !fatal(outcomes) ==> watchdog_run(outcomes).failures == (if outcomes.len() > 0
            && outcomes.last() == Renewal::Failed {
            1nat
        } else {
            0nat
        }),
    decreases outcomes.len(),
{
    if outcomes.len() > 0 {
        let rest = outcomes.drop_last();
        watchdog_gives_up_exactly_on_loss(rest);
        if fatal(rest) {
            let i = choose|i: int| fatal_at(rest, i);
            assert(fatal_at(outcomes, i));
        } else {
            assert forall|i: int| fatal_at(outcomes, i) implies i == outcomes.len() - 1 by {
                if i < rest.len() {
                    assert(fatal_at(rest, i));
                }
            }
            let n = outcomes.len() - 1;
            if watchdog_run(outcomes).lost {
                if outcomes.last() == Renewal::Failed {
                    assert(rest.last() == Renewal::Failed);
                    assert(outcomes[n - 1] == Renewal::Failed);
                }
                assert(fatal_at(outcomes, n));
            }
        }
    }
}

/// A lost lease is never found again: more renewals change nothing.
pub proof fn watchdog_loss_is_final(outcomes: Seq<Renewal>, more: Seq<Renewal>)
    requires
        watchdog_run(outcomes).lost,
    ensures
        watchdog_run(outcomes + more).lost,
    decreases more.len(),
{
    if more.len() == 0 {
        assert(outcomes + more =~= outcomes);
    } else {
        watchdog_loss_is_final(outcomes, more.drop_last());
        assert((outcomes + more).drop_last() =~= outcomes + more.drop_last());
    }
}

/// Two renewals fit into a lease with time to spare, so that two in a row must
/// fail before the lease is at risk.
pub proof fn two_renewals_fit_into_a_lease(ttl: nat)
    requires
        ttl > 0,
    ensures
        2 * renewal_period(ttl) < ttl,
{
}

} // verus!
