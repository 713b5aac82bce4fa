//! The anomaly-handling finite state machine.
//!
//! A subject is in one of four states: no anomaly, anomaly observed,
//! actively being fixed (with a retry count), or out of control (the retry
//! budget is exhausted). Two total operations compute the edge triggered by
//! one observation: `escalate` for a "still bad" observation and `diminish`
//! for a "looks fine" one. Edges are their own tagged type so that
//! remediation policy can pattern-match on a single transition value.

use vstd::prelude::*;

verus! {

/// The state of one monitored subject.
#[derive(Clone, Copy, Debug, PartialEq, Eq, Structural)]
pub enum Anomaly {
    /// No anomaly.
    Negative,
    /// An anomaly has been observed, but no intervention has started.
    Positive,
    /// Interventions are under way; the payload counts attempts (at least 1).
    Fixing(u32),
    /// The retry budget is exhausted.
    OutOfControl,
}

/// An edge of the state machine, named after what the observation meant.
#[derive(Clone, Copy, Debug, PartialEq, Eq, Structural)]
pub enum AnomalyTransition {
    /// Nothing was wrong and nothing is wrong.
    Normal,
    /// An anomaly has just appeared.
    Occurred,
    /// The anomaly persists but is not being intervened on.
    Unhandled,
    /// The anomaly went away on its own.
    Disappeared,
    /// The anomaly went away while being fixed.
    Fixed,
    /// One more intervention attempt is being made.
    Fixing,
    /// The retry budget has just run out.
    GaveUp,
    /// The retry budget had already run out.
    HasGivenUp,
}

impl Anomaly {
    /// A `Fixing` state always carries at least one attempt.
    pub open spec fn wf(self) -> bool {
        match self {
            Anomaly::Fixing(n) => n >= 1,
            _ => true,
        }
    }
}

/// The edge triggered by one "still bad" observation.
pub open spec fn spec_escalate(s: Anomaly, max_retry: u32) -> AnomalyTransition {
    match s {
        Anomaly::Negative => AnomalyTransition::Occurred,
        Anomaly::Positive => AnomalyTransition::Fixing,
        Anomaly::Fixing(n) => if n < max_retry {
            AnomalyTransition::Fixing
        } else {
            AnomalyTransition::GaveUp
        },
        Anomaly::OutOfControl => AnomalyTransition::HasGivenUp,
    }
}

/// The edge triggered by one "looks fine" observation: every state heads
/// back to `Negative`.
pub open spec fn spec_diminish(s: Anomaly) -> AnomalyTransition {
    match s {
        Anomaly::Negative => AnomalyTransition::Normal,
        Anomaly::Positive => AnomalyTransition::Disappeared,
        Anomaly::Fixing(_) => AnomalyTransition::Fixed,
        Anomaly::OutOfControl => AnomalyTransition::Disappeared,
    }
}

/// Applying an edge to a state. An edge that does not originate at the
/// given state is a no-op (the state is preserved), so callers can compose
/// `escalate`/`diminish` with external policy without crashing.
pub open spec fn spec_apply(s: Anomaly, t: AnomalyTransition) -> Anomaly {
    match (s, t) {
        (Anomaly::Negative, AnomalyTransition::Normal) => Anomaly::Negative,
        (Anomaly::Negative, AnomalyTransition::Occurred) => Anomaly::Positive,
        (Anomaly::Positive, AnomalyTransition::Unhandled) => Anomaly::Positive,
        (Anomaly::Positive, AnomalyTransition::Disappeared) => Anomaly::Negative,
        (Anomaly::Positive, AnomalyTransition::Fixing) => Anomaly::Fixing(1),
        (Anomaly::Fixing(n), AnomalyTransition::Fixing) => if n < u32::MAX {
            Anomaly::Fixing((n + 1) as u32)
        } else {
            Anomaly::Fixing(n)
        },
        (Anomaly::Fixing(_), AnomalyTransition::Fixed) => Anomaly::Negative,
        (Anomaly::Fixing(_), AnomalyTransition::GaveUp) => Anomaly::OutOfControl,
        (Anomaly::OutOfControl, AnomalyTransition::HasGivenUp) => Anomaly::OutOfControl,
        (Anomaly::OutOfControl, AnomalyTransition::Disappeared) => Anomaly::Negative,
        _ => s,
    }
}

/// The pair-to-edge operator: the edge that leads from state `a` to state
/// `b`, or `None` when no edge connects the two.
pub open spec fn spec_edge(a: Anomaly, b: Anomaly) -> Option<AnomalyTransition> {
    match (a, b) {
        (Anomaly::Negative, Anomaly::Negative) => Some(AnomalyTransition::Normal),
        (Anomaly::Negative, Anomaly::Positive) => Some(AnomalyTransition::Occurred),
        (Anomaly::Positive, Anomaly::Positive) => Some(AnomalyTransition::Unhandled),
        (Anomaly::Positive, Anomaly::Negative) => Some(AnomalyTransition::Disappeared),
        (Anomaly::Positive, Anomaly::Fixing(m)) => if m == 1 {
            Some(AnomalyTransition::Fixing)
        } else {
            None
        },
        (Anomaly::Fixing(n), Anomaly::Fixing(m)) => if n < u32::MAX && m == n + 1 {
            Some(AnomalyTransition::Fixing)
        } else {
            None
        },
        (Anomaly::Fixing(_), Anomaly::Negative) => Some(AnomalyTransition::Fixed),
        (Anomaly::Fixing(_), Anomaly::OutOfControl) => Some(AnomalyTransition::GaveUp),
        (Anomaly::OutOfControl, Anomaly::OutOfControl) => Some(AnomalyTransition::HasGivenUp),
        (Anomaly::OutOfControl, Anomaly::Negative) => Some(AnomalyTransition::Disappeared),
        _ => None,
    }
}

/// The printable name of a transition, as it appears in notification
/// messages.
pub open spec fn spec_label(t: AnomalyTransition) -> Seq<char> {
    match t {
        AnomalyTransition::Normal => "Normal"@,
        AnomalyTransition::Occurred => "Occurred"@,
        AnomalyTransition::Unhandled => "Unhandled"@,
        AnomalyTransition::Disappeared => "Disappeared"@,
        AnomalyTransition::Fixed => "Fixed"@,
        AnomalyTransition::Fixing => "Fixing"@,
        AnomalyTransition::GaveUp => "GaveUp"@,
        AnomalyTransition::HasGivenUp => "HasGivenUp"@,
    }
}

impl AnomalyTransition {
    /// This transition's name.
    pub fn label(&self) -> (r: &str)
        ensures
            r@ == spec_label(*self),
    {
        match self {
            AnomalyTransition::Normal => "Normal",
            AnomalyTransition::Occurred => "Occurred",
            AnomalyTransition::Unhandled => "Unhandled",
            AnomalyTransition::Disappeared => "Disappeared",
            AnomalyTransition::Fixed => "Fixed",
            AnomalyTransition::Fixing => "Fixing",
            AnomalyTransition::GaveUp => "GaveUp",
            AnomalyTransition::HasGivenUp => "HasGivenUp",
        }
    }
}

/// The transitions that must be reported upstream.
pub open spec fn spec_important(t: AnomalyTransition) -> bool {
    ||| t == AnomalyTransition::Occurred
    ||| t == AnomalyTransition::Disappeared
    ||| t == AnomalyTransition::Fixed
    ||| t == AnomalyTransition::GaveUp
}

/// Something that is either worth reporting upstream or not.
pub trait ImportantExt {
    /// Whether `self` is worth reporting upstream.
    spec fn spec_is_important(&self) -> bool;

    /// Runtime test for `spec_is_important`.
    fn is_important(&self) -> (r: bool)
        ensures
            r == self.spec_is_important(),
    ;
}

impl ImportantExt for AnomalyTransition {
    open spec fn spec_is_important(&self) -> bool {
        spec_important(*self)
    }

    fn is_important(&self) -> (r: bool)
        ensures
            r == (*self == AnomalyTransition::Occurred || *self == AnomalyTransition::Disappeared
                || *self == AnomalyTransition::Fixed || *self == AnomalyTransition::GaveUp),
    {
        match self {
            AnomalyTransition::Occurred => true,
            AnomalyTransition::Disappeared => true,
            AnomalyTransition::Fixed => true,
            AnomalyTransition::GaveUp => true,
            _ => false,
        }
    }
}

impl Anomaly {
    /// Compute the edge triggered by one "still bad" observation, with
    /// `max_retry` as the intervention budget.
    pub fn escalate(&self, max_retry: u32) -> (t: AnomalyTransition)
        ensures
            t == spec_escalate(*self, max_retry),
    {
        match self {
            Anomaly::Negative => AnomalyTransition::Occurred,
            Anomaly::Positive => AnomalyTransition::Fixing,
            Anomaly::Fixing(n) => if *n < max_retry {
                AnomalyTransition::Fixing
            } else {
                AnomalyTransition::GaveUp
            },
            Anomaly::OutOfControl => AnomalyTransition::HasGivenUp,
        }
    }

    /// Compute the edge triggered by one "looks fine" observation.
    pub fn diminish(&self) -> (t: AnomalyTransition)
        ensures
            t == spec_diminish(*self),
    {
        match self {
            Anomaly::Negative => AnomalyTransition::Normal,
            Anomaly::Positive => AnomalyTransition::Disappeared,
            Anomaly::Fixing(_) => AnomalyTransition::Fixed,
            Anomaly::OutOfControl => AnomalyTransition::Disappeared,
        }
    }

    /// Apply an edge in place. An edge that does not originate at the
    /// current state preserves the state rather than failing.
    pub fn apply(&mut self, t: AnomalyTransition)
        ensures
            *final(self) == spec_apply(*old(self), t),
            old(self).wf() ==> final(self).wf(),
    {
        let next = match (*self, t) {
            (Anomaly::Negative, AnomalyTransition::Normal) => Anomaly::Negative,
            (Anomaly::Negative, AnomalyTransition::Occurred) => Anomaly::Positive,
            (Anomaly::Positive, AnomalyTransition::Unhandled) => Anomaly::Positive,
            (Anomaly::Positive, AnomalyTransition::Disappeared) => Anomaly::Negative,
            (Anomaly::Positive, AnomalyTransition::Fixing) => Anomaly::Fixing(1),
            (Anomaly::Fixing(n), AnomalyTransition::Fixing) => if n < u32::MAX {
                Anomaly::Fixing(n + 1)
            } else {
                Anomaly::Fixing(n)
            },
            (Anomaly::Fixing(_), AnomalyTransition::Fixed) => Anomaly::Negative,
            (Anomaly::Fixing(_), AnomalyTransition::GaveUp) => Anomaly::OutOfControl,
            (Anomaly::OutOfControl, AnomalyTransition::HasGivenUp) => Anomaly::OutOfControl,
            (Anomaly::OutOfControl, AnomalyTransition::Disappeared) => Anomaly::Negative,
            (s, _) => s,
        };
        *self = next;
    }

    /// The pair-to-edge operator: the edge leading from `self` to `target`,
    /// or `None` when the caller has asked for an impossible transition.
    pub fn edge_to(&self, target: &Anomaly) -> (t: Option<AnomalyTransition>)
        ensures
            t == spec_edge(*self, *target),
    {
        match (*self, *target) {
            (Anomaly::Negative, Anomaly::Negative) => Some(AnomalyTransition::Normal),
            (Anomaly::Negative, Anomaly::Positive) => Some(AnomalyTransition::Occurred),
            (Anomaly::Positive, Anomaly::Positive) => Some(AnomalyTransition::Unhandled),
            (Anomaly::Positive, Anomaly::Negative) => Some(AnomalyTransition::Disappeared),
            (Anomaly::Positive, Anomaly::Fixing(m)) => if m == 1 {
                Some(AnomalyTransition::Fixing)
            } else {
                None
            },
            (Anomaly::Fixing(n), Anomaly::Fixing(m)) => if n < u32::MAX && m == n + 1 {
                Some(AnomalyTransition::Fixing)
            } else {
                None
            },
            (Anomaly::Fixing(_), Anomaly::Negative) => Some(AnomalyTransition::Fixed),
            (Anomaly::Fixing(_), Anomaly::OutOfControl) => Some(AnomalyTransition::GaveUp),
            (Anomaly::OutOfControl, Anomaly::OutOfControl) => Some(AnomalyTransition::HasGivenUp),
            (Anomaly::OutOfControl, Anomaly::Negative) => Some(AnomalyTransition::Disappeared),
            (_, _) => None,
        }
    }

    /// The number of intervention attempts recorded so far: none before
    /// fixing starts, the attempt count while fixing, and the maximum
    /// representable count once the budget is exhausted.
    pub fn retry_count(&self) -> (n: u32)
        ensures
            *self == Anomaly::Negative ==> n == 0,
            *self == Anomaly::Positive ==> n == 0,
            forall|k: u32| *self == Anomaly::Fixing(k) ==> n == k,
            *self == Anomaly::OutOfControl ==> n == u32::MAX,
    {
        match self {
            Anomaly::Negative => 0,
            Anomaly::Positive => 0,
            Anomaly::Fixing(n) => *n,
            Anomaly::OutOfControl => u32::MAX,
        }
    }
}

/// Escalation never resets a subject: applying the edge that one "still
/// bad" observation triggers leaves the state `Positive`, `Fixing` (with
/// the attempt count advanced by one while the budget lasts), or
/// `OutOfControl` -- never `Negative`.
pub proof fn lemma_escalate_never_negative(s: Anomaly, max_retry: u32)
    requires
        max_retry >= 1,
        s.wf(),
    ensures
        !(spec_apply(s, spec_escalate(s, max_retry)) is Negative),
        spec_apply(s, spec_escalate(s, max_retry)).wf(),
        s is Fixing && s->0 < max_retry ==> spec_apply(s, spec_escalate(s, max_retry))
            == Anomaly::Fixing((s->0 + 1) as u32),
{
}

/// One "looks fine" observation always resets a subject: applying the edge
/// that `diminish` computes reaches `Negative` from every state.
pub proof fn lemma_diminish_resets(s: Anomaly)
    ensures
        spec_apply(s, spec_diminish(s)) == Anomaly::Negative,
{
}

/// Once the retry budget is exhausted, escalation gives up: from
/// `Fixing(n)` with `n >= max_retry` the computed edge is `GaveUp`, and
/// applying it lands in `OutOfControl`.
pub proof fn lemma_exhausted_budget_gives_up(n: u32, max_retry: u32)
    requires
        n >= max_retry,
    ensures
        spec_escalate(Anomaly::Fixing(n), max_retry) == AnomalyTransition::GaveUp,
        spec_apply(Anomaly::Fixing(n), AnomalyTransition::GaveUp) == Anomaly::OutOfControl,
{
}

/// The pair-to-edge operator agrees with edge application: whenever an edge
/// connects `a` to `b`, applying that edge to `a` indeed reaches `b`.
pub proof fn lemma_edge_consistent_with_apply(a: Anomaly, b: Anomaly)
    requires
        spec_edge(a, b) is Some,
    ensures
        spec_apply(a, spec_edge(a, b)->0) == b,
{
}

} // verus!
