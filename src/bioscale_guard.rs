//! The biocompatibility guard for organically-integrated components.
use vstd::prelude::*;

verus! {

/// Ceilings and floors of the guard, in ticks.
#[derive(Debug, Clone, Copy, PartialEq, Eq, Structural)]
pub struct BiocompatGuardConfig {
    /// Maximum allowed bioscale risk index.
    pub max_bio_risk: i64,
    /// Minimum eco-impact per joule.
    pub min_bio_eco: i64,
}

/// Bioscale readings of one organically-integrated component, in ticks.
#[derive(Debug, Clone, Copy, PartialEq, Eq, Structural)]
pub struct NeuroRightsSnapshot {
    pub normalized_risk: i64,
    pub eco_impact_index: i64,
}

/// How a component's reward signal is coupled.
#[derive(Debug, Clone, Copy, PartialEq, Eq, Structural)]
pub struct BioIntegrationProfile {
    /// The reward couples to distress or coercion signals.
    pub reward_couples_to_distress: bool,
}

#[derive(Debug, Clone, Copy, PartialEq, Eq, Structural)]
pub struct BiocompatGuard {
    cfg: BiocompatGuardConfig,
}

#[derive(Debug, Clone, Copy, PartialEq, Eq, Structural)]
pub enum BiocompatViolation {
    RiskTooHigh(i64),
    EcoImpactTooLow(i64),
    DistressCoupling,
}

/// Outcome of the guard: risk is checked first, then eco-impact, then
/// distress coupling; the first failing check is reported.
pub open spec fn guard_spec(
    cfg: BiocompatGuardConfig,
    neuro: NeuroRightsSnapshot,
    profile: BioIntegrationProfile,
) -> Result<(), BiocompatViolation> {
    if neuro.normalized_risk > cfg.max_bio_risk {
        Err(BiocompatViolation::RiskTooHigh(neuro.normalized_risk))
    } else if neuro.eco_impact_index < cfg.min_bio_eco {
        Err(BiocompatViolation::EcoImpactTooLow(neuro.eco_impact_index))
    } else if profile.reward_couples_to_distress {
        Err(BiocompatViolation::DistressCoupling)
    } else {
        Ok(())
    }
}

impl BiocompatGuard {
    pub closed spec fn config(&self) -> BiocompatGuardConfig {
        self.cfg
    }

    pub fn new(cfg: BiocompatGuardConfig) -> (r: Self)
        ensures
            r.config() == cfg,
    {
        Self { cfg }
    }

    /// Checks that an organically-integrated interface stays within its envelope.
    pub fn check_neurorights(
        &self,
        neuro: &NeuroRightsSnapshot,
        profile: &BioIntegrationProfile,
    ) -> (r: Result<(), BiocompatViolation>)
        ensures
            r == guard_spec(self.config(), *neuro, *profile),
    {
        let r = neuro.normalized_risk;
        let e = neuro.eco_impact_index;
        if r > self.cfg.max_bio_risk {
            return Err(BiocompatViolation::RiskTooHigh(r));
        }
        if e < self.cfg.min_bio_eco {
            return Err(BiocompatViolation::EcoImpactTooLow(e));
        }
        if profile.reward_couples_to_distress {
            return Err(BiocompatViolation::DistressCoupling);
        }
        Ok(())
    }
}

/// A reward coupled to distress is refused even when risk and eco-impact are
/// both within bounds: the numeric checks never override it.
pub proof fn lemma_distress_coupling_refused(
    cfg: BiocompatGuardConfig,
    neuro: NeuroRightsSnapshot,
    profile: BioIntegrationProfile,
)
    requires
        profile.reward_couples_to_distress,
        neuro.normalized_risk <= cfg.max_bio_risk,
        neuro.eco_impact_index >= cfg.min_bio_eco,
    ensures
        guard_spec(cfg, neuro, profile) == Err::<(), BiocompatViolation>(
            BiocompatViolation::DistressCoupling,
        ),
{
}

} // verus!
