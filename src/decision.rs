//! The corridor decision engine: compares two successive residuals.
use vstd::prelude::*;
use crate::risk::Residual;
use crate::risk::RiskCoord;

verus! {

/// Graded outcome of one control step.
#[derive(Debug, Clone, Copy, PartialEq, Eq, Structural)]
pub enum CorridorDecision {
    Continue,
    Derate,
    Stop,
}

/// Some coordinate has reached its hard threshold.
pub open spec fn any_at_hard(rx: Seq<RiskCoord>) -> bool {
    exists|i: int| 0 <= i < rx.len() && (#[trigger] rx[i]).value >= rx[i].hard
}

/// Some coordinate lies above its gold threshold.
pub open spec fn any_above_gold(rx: Seq<RiskCoord>) -> bool {
    exists|i: int| 0 <= i < rx.len() && (#[trigger] rx[i]).value > rx[i].gold
}

/// The decision policy against an aggregate gold ceiling, in ticks.
pub open spec fn decision_with_ceiling(prev: Residual, next: Residual, ceiling: int) -> CorridorDecision {
    if any_at_hard(next.rx@) {
        CorridorDecision::Stop
    } else if next.vt > prev.vt && next.vt > ceiling {
        CorridorDecision::Stop
    } else if next.vt > prev.vt || any_above_gold(next.rx@) {
        CorridorDecision::Derate
    } else {
        CorridorDecision::Continue
    }
}

/// The decision policy with the default ceiling: the gold band of `next`,
/// the residual it would have with every coordinate on its gold threshold.
/// This is a deliberate choice over the raw weighted sum of gold thresholds:
/// the residual is a weighted sum of ramped values, so the ceiling is the
/// same sum taken at the gold thresholds, and it is bounded by the total
/// weight just as the residual is. A caller with a fleet-wide ceiling uses
/// `enforce_safe_step_with_ceiling`.
pub open spec fn decision_spec(prev: Residual, next: Residual) -> CorridorDecision {
    decision_with_ceiling(prev, next, next.gold_band())
}

/// Decides the step from `prev` to `next` against a configured aggregate
/// gold ceiling. Both residuals are read as they stand: recompute them first.
pub fn enforce_safe_step_with_ceiling(prev: &Residual, next: &Residual, ceiling: u64) -> (r:
    CorridorDecision)
    ensures
        r == decision_with_ceiling(*prev, *next, ceiling as int),
{
    let mut i: usize = 0;
    let mut above_gold = false;
    while i < next.rx.len()
        invariant
            i <= next.rx@.len(),
            above_gold <==> exists|j: int| 0 <= j < i && (#[trigger] next.rx@[j]).value > next.rx@[j].gold,
            forall|j: int| 0 <= j < i ==> (#[trigger] next.rx@[j]).value < next.rx@[j].hard,
        decreases next.rx.len() - i,
    {
        let c = &next.rx[i];
        if c.value >= c.hard {
            return CorridorDecision::Stop;
        }
        if c.value > c.gold {
            above_gold = true;
        }
        i = i + 1;
    }
    let increased = next.vt > prev.vt;
    if increased && next.vt > ceiling {
        CorridorDecision::Stop
    } else if increased || above_gold {
        CorridorDecision::Derate
    } else {
        CorridorDecision::Continue
    }
}

/// Decides whether the step from `prev` to `next` may continue, must derate,
/// or must stop, with the gold band of `next` as the ceiling.
pub fn enforce_safe_step(prev: &Residual, next: &Residual) -> (r: CorridorDecision)
    requires
        next.wf(),
    ensures
        r == decision_spec(*prev, *next),
{
    let ceiling = next.gold_ceiling();
    enforce_safe_step_with_ceiling(prev, next, ceiling)
}

/// A coordinate at or past its hard threshold stops the step, whatever the
/// previous residual and the ceiling are.
pub proof fn lemma_hard_threshold_stops(prev: Residual, next: Residual, ceiling: int)
    requires
        any_at_hard(next.rx@),
    ensures
        decision_with_ceiling(prev, next, ceiling) == CorridorDecision::Stop,
        decision_spec(prev, next) == CorridorDecision::Stop,
{
}

/// A residual that did not increase, with every coordinate at or below its
/// gold threshold (and below its hard one), lets the step continue.
pub proof fn lemma_no_increase_continues(prev: Residual, next: Residual, ceiling: int)
    requires
        next.vt <= prev.vt,
        forall|i: int| 0 <= i < next.rx@.len() ==> (#[trigger] next.rx@[i]).value <= next.rx@[i].gold,
        forall|i: int| 0 <= i < next.rx@.len() ==> (#[trigger] next.rx@[i]).value < next.rx@[i].hard,
    ensures
        decision_with_ceiling(prev, next, ceiling) == CorridorDecision::Continue,
        decision_spec(prev, next) == CorridorDecision::Continue,
{
}

} // verus!
