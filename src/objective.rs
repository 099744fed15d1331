//! The biocompatible cost function.
use vstd::prelude::*;
use crate::risk::SCALE;
use crate::state::{MpcControlSlice, MpcStateSlice};

verus! {

/// Weights of the cost terms, in ticks; valid weights are non-negative.
#[derive(Debug, Clone, Copy, PartialEq, Eq, Structural)]
pub struct ObjectiveTermWeights {
    pub lambda_energy: i64,
    pub lambda_degradation: i64,
    pub lambda_sparsity: i64,
    pub lambda_slaviolation: i64,
}

/// Floors, ceilings and weights of the objective, in ticks.
#[derive(Debug, Clone, Copy, PartialEq, Eq, Structural)]
pub struct BiocompatObjectiveConfig {
    /// Minimum eco-impact per joule (E_min).
    pub e_min: i64,
    /// Maximum normalized risk (R_max).
    pub r_max: i64,
    /// Disable any reward that correlates with biological distress signals.
    pub forbid_distress_coupling: bool,
    /// Optional cap on the cognitive load index.
    pub max_cognitive_load: Option<u64>,
    pub weights: ObjectiveTermWeights,
}

/// Non-negative cost terms of one candidate, in ticks.
#[derive(Debug, Clone, Copy, PartialEq, Eq, Structural)]
pub struct KerVector {
    pub exergy_cost: u64,
    pub degradation_index: u64,
    pub active_node_fraction: u64,
    pub sla_violation_ratio: u64,
}

/// A cost: a finite number of ticks, or infeasible (`+inf`).
#[derive(Debug, Clone, Copy, PartialEq, Eq, Structural)]
pub enum ObjectiveCost {
    Finite(u128),
    Infinite,
}

/// An objective whose configuration passed `new_checked`.
#[derive(Debug, Clone, Copy)]
pub struct BiocompatObjective {
    cfg: BiocompatObjectiveConfig,
}

#[derive(Debug, Clone, Copy, PartialEq, Eq, Structural)]
pub enum BiocompatError {
    InvalidEcoImpact(i64),
    InvalidRisk(i64),
    /// Some term weight is negative.
    NonFiniteWeight,
}

pub open spec fn weights_valid(w: ObjectiveTermWeights) -> bool {
    &&& w.lambda_energy >= 0
    &&& w.lambda_degradation >= 0
    &&& w.lambda_sparsity >= 0
    &&& w.lambda_slaviolation >= 0
}

/// What `new_checked` accepts or refuses, checked in this order.
pub open spec fn config_check(cfg: BiocompatObjectiveConfig) -> Result<(), BiocompatError> {
    if cfg.e_min < 0 {
        Err(BiocompatError::InvalidEcoImpact(cfg.e_min))
    } else if cfg.r_max <= 0 || cfg.r_max > SCALE {
        Err(BiocompatError::InvalidRisk(cfg.r_max))
    } else if !weights_valid(cfg.weights) {
        Err(BiocompatError::NonFiniteWeight)
    } else {
        Ok(())
    }
}

/// One weighted term, in ticks (rounded down).
pub open spec fn term_spec(lambda: int, t: int) -> int {
    lambda * t / (SCALE as int)
}

/// The cost of a candidate under `cfg`.
pub open spec fn cost_spec(cfg: BiocompatObjectiveConfig, ker: KerVector, eco: int, risk: int) -> ObjectiveCost {
    if eco < cfg.e_min || risk > cfg.r_max {
        ObjectiveCost::Infinite
    } else {
        ObjectiveCost::Finite(
            (term_spec(cfg.weights.lambda_energy as int, ker.exergy_cost as int) + term_spec(
                cfg.weights.lambda_degradation as int,
                ker.degradation_index as int,
            ) + term_spec(cfg.weights.lambda_sparsity as int, ker.active_node_fraction as int)
                + term_spec(cfg.weights.lambda_slaviolation as int, ker.sla_violation_ratio as int)) as u128,
        )
    }
}

fn weighted_term(lambda: i64, t: u64) -> (r: u128)
    requires
        lambda >= 0,
    ensures
        r as int == term_spec(lambda as int, t as int),
        r < 0x1000_0000_0000_0000_0000_0000_0000_0000u128,
{
    let l = lambda as u128;
    assert((l as int) * (t as int) < 0x8000_0000_0000_0000_0000_0000_0000_0000int) by (nonlinear_arith)
        requires
            0 <= l < 0x8000_0000_0000_0000int,
            0 <= t < 0x1_0000_0000_0000_0000int,
    ;
    let p: u128 = l * (t as u128);
    let q: u128 = p / (SCALE as u128);
    assert(q <= p / 8) by {
        vstd::arithmetic::div_mod::lemma_div_is_ordered_by_denominator(p as int, 8, SCALE as int);
    }
    q
}

impl BiocompatObjective {
    pub closed spec fn config(&self) -> BiocompatObjectiveConfig {
        self.cfg
    }

    /// The configuration passed `new_checked`.
    pub open spec fn wf(&self) -> bool {
        config_check(self.config()) is Ok
    }

    /// Builds an objective, refusing a negative eco floor, a risk ceiling
    /// outside `(0, 1]`, or a negative weight.
    pub fn new_checked(cfg: BiocompatObjectiveConfig) -> (r: Result<Self, BiocompatError>)
        ensures
            match r {
                Ok(o) => config_check(cfg) is Ok && o.config() == cfg && o.wf(),
                Err(e) => config_check(cfg) == Err::<(), BiocompatError>(e),
            },
    {
        if cfg.e_min < 0 {
            return Err(BiocompatError::InvalidEcoImpact(cfg.e_min));
        }
        if cfg.r_max <= 0 || cfg.r_max > SCALE as i64 {
            return Err(BiocompatError::InvalidRisk(cfg.r_max));
        }
        let ws: [i64; 4] = [
            cfg.weights.lambda_energy,
            cfg.weights.lambda_degradation,
            cfg.weights.lambda_sparsity,
            cfg.weights.lambda_slaviolation,
        ];
        let mut i: usize = 0;
        while i < 4
            invariant
                i <= 4,
                cfg.e_min >= 0,
                0 < cfg.r_max <= SCALE,
                ws@ == seq![
                    cfg.weights.lambda_energy,
                    cfg.weights.lambda_degradation,
                    cfg.weights.lambda_sparsity,
                    cfg.weights.lambda_slaviolation,
                ],
                forall|j: int| 0 <= j < i ==> ws@[j] >= 0,
            decreases 4 - i,
        {
            if ws[i] < 0 {
                proof {
                    assert(ws@[0] == cfg.weights.lambda_energy);
                    assert(ws@[1] == cfg.weights.lambda_degradation);
                    assert(ws@[2] == cfg.weights.lambda_sparsity);
                    assert(ws@[3] == cfg.weights.lambda_slaviolation);
                    assert(!weights_valid(cfg.weights));
                }
                return Err(BiocompatError::NonFiniteWeight);
            }
            i = i + 1;
        }
        proof {
            assert(ws@[0] >= 0 && ws@[1] >= 0 && ws@[2] >= 0 && ws@[3] >= 0);
        }
        Ok(Self { cfg })
    }

    /// Evaluates J(x, u): infeasible below the eco floor or above the risk
    /// ceiling, otherwise the weighted sum of the cost terms.
    pub fn eval(
        &self,
        x: &MpcStateSlice,
        u: &MpcControlSlice,
        ker: &KerVector,
        eco: i64,
        risk: i64,
    ) -> (r: ObjectiveCost)
        requires
            self.wf(),
        ensures
            r == cost_spec(self.config(), *ker, eco as int, risk as int),
    {
        if eco < self.cfg.e_min || risk > self.cfg.r_max {
            return ObjectiveCost::Infinite;
        }
        let w = self.cfg.weights;
        let energy_term = weighted_term(w.lambda_energy, ker.exergy_cost);
        let degr_term = weighted_term(w.lambda_degradation, ker.degradation_index);
        let sparsity_term = weighted_term(w.lambda_sparsity, ker.active_node_fraction);
        let sla_term = weighted_term(w.lambda_slaviolation, ker.sla_violation_ratio);
        ObjectiveCost::Finite(energy_term + degr_term + sparsity_term + sla_term)
    }
}

/// Below the eco floor or above the risk ceiling the cost is `+inf`, however
/// favourable the cost terms are.
pub proof fn lemma_infeasible_is_infinite(
    cfg: BiocompatObjectiveConfig,
    ker: KerVector,
    eco: int,
    risk: int,
)
    requires
        eco < cfg.e_min || risk > cfg.r_max,
    ensures
        cost_spec(cfg, ker, eco, risk) == ObjectiveCost::Infinite,
{
}

/// A risk ceiling above one unit, or any negative weight, is refused.
pub proof fn lemma_config_refusals(cfg: BiocompatObjectiveConfig)
    ensures
        cfg.r_max > SCALE ==> config_check(cfg) is Err,
        !weights_valid(cfg.weights) ==> config_check(cfg) is Err,
{
}

} // verus!
