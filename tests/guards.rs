use eco_sys::bioscale_guard::{
    BioIntegrationProfile, BiocompatGuard, BiocompatGuardConfig, BiocompatViolation, NeuroRightsSnapshot,
};
use eco_sys::lyapunov::{LyapunovResidualChecker, LyapunovViolation, ResidualComputer};
use eco_sys::objective::{
    BiocompatError, BiocompatObjective, BiocompatObjectiveConfig, KerVector, ObjectiveCost, ObjectiveTermWeights,
};
use eco_sys::state::{MpcControlSlice, MpcStateSlice};

fn guard() -> BiocompatGuard {
    BiocompatGuard::new(BiocompatGuardConfig { max_bio_risk: 300_000, min_bio_eco: 500_000 })
}

#[test]
fn guard_passes_within_envelope() {
    let n = NeuroRightsSnapshot { normalized_risk: 200_000, eco_impact_index: 600_000 };
    let p = BioIntegrationProfile { reward_couples_to_distress: false };
    assert_eq!(guard().check_neurorights(&n, &p), Ok(()));
}

#[test]
fn guard_refuses_high_risk_first() {
    let n = NeuroRightsSnapshot { normalized_risk: 400_000, eco_impact_index: 100_000 };
    let p = BioIntegrationProfile { reward_couples_to_distress: true };
    assert_eq!(guard().check_neurorights(&n, &p), Err(BiocompatViolation::RiskTooHigh(400_000)));
}

#[test]
fn guard_refuses_low_eco_impact() {
    let n = NeuroRightsSnapshot { normalized_risk: 300_000, eco_impact_index: 499_999 };
    let p = BioIntegrationProfile { reward_couples_to_distress: true };
    assert_eq!(guard().check_neurorights(&n, &p), Err(BiocompatViolation::EcoImpactTooLow(499_999)));
}

#[test]
fn guard_refuses_distress_coupling_within_bounds() {
    let n = NeuroRightsSnapshot { normalized_risk: 100_000, eco_impact_index: 900_000 };
    let p = BioIntegrationProfile { reward_couples_to_distress: true };
    assert_eq!(guard().check_neurorights(&n, &p), Err(BiocompatViolation::DistressCoupling));
}

fn weights(w: i64) -> ObjectiveTermWeights {
    ObjectiveTermWeights { lambda_energy: w, lambda_degradation: w, lambda_sparsity: w, lambda_slaviolation: w }
}

fn config(e_min: i64, r_max: i64, w: ObjectiveTermWeights) -> BiocompatObjectiveConfig {
    BiocompatObjectiveConfig {
        e_min,
        r_max,
        forbid_distress_coupling: true,
        max_cognitive_load: None,
        weights: w,
    }
}

fn slices() -> (MpcStateSlice, MpcControlSlice) {
    (MpcStateSlice { node_id: 1, x: vec![0] }, MpcControlSlice { node_id: 1, u: vec![0] })
}

#[test]
fn objective_refuses_risk_ceiling_above_one() {
    let r = BiocompatObjective::new_checked(config(0, 1_500_000, weights(1)));
    assert_eq!(r.err(), Some(BiocompatError::InvalidRisk(1_500_000)));
}

#[test]
fn objective_refuses_zero_risk_ceiling() {
    let r = BiocompatObjective::new_checked(config(0, 0, weights(1)));
    assert_eq!(r.err(), Some(BiocompatError::InvalidRisk(0)));
}

#[test]
fn objective_refuses_negative_eco_floor() {
    let r = BiocompatObjective::new_checked(config(-1, 500_000, weights(1)));
    assert_eq!(r.err(), Some(BiocompatError::InvalidEcoImpact(-1)));
}

#[test]
fn objective_refuses_negative_weight() {
    let mut w = weights(1);
    w.lambda_sparsity = -5;
    let r = BiocompatObjective::new_checked(config(0, 500_000, w));
    assert_eq!(r.err(), Some(BiocompatError::NonFiniteWeight));
}

#[test]
fn objective_below_eco_floor_is_infinite() {
    let obj = BiocompatObjective::new_checked(config(500_000, SCALE_R, weights(0))).unwrap();
    let (x, u) = slices();
    let ker = KerVector { exergy_cost: 0, degradation_index: 0, active_node_fraction: 0, sla_violation_ratio: 0 };
    assert_eq!(obj.eval(&x, &u, &ker, 300_000, 0), ObjectiveCost::Infinite);
}

const SCALE_R: i64 = 1_000_000;

#[test]
fn objective_above_risk_ceiling_is_infinite() {
    let obj = BiocompatObjective::new_checked(config(0, 500_000, weights(0))).unwrap();
    let (x, u) = slices();
    let ker = KerVector { exergy_cost: 0, degradation_index: 0, active_node_fraction: 0, sla_violation_ratio: 0 };
    assert_eq!(obj.eval(&x, &u, &ker, 900_000, 500_001), ObjectiveCost::Infinite);
}

#[test]
fn objective_feasible_is_weighted_sum() {
    let w = ObjectiveTermWeights {
        lambda_energy: 1_000_000,
        lambda_degradation: 500_000,
        lambda_sparsity: 250_000,
        lambda_slaviolation: 2_000_000,
    };
    let obj = BiocompatObjective::new_checked(config(100_000, 800_000, w)).unwrap();
    let (x, u) = slices();
    let ker = KerVector {
        exergy_cost: 400_000,
        degradation_index: 200_000,
        active_node_fraction: 800_000,
        sla_violation_ratio: 50_000,
    };
    // 0.4 + 0.1 + 0.2 + 0.1
    assert_eq!(obj.eval(&x, &u, &ker, 100_000, 800_000), ObjectiveCost::Finite(800_000));
}

#[test]
fn lyapunov_strict_refuses_equal() {
    let c = LyapunovResidualChecker { allow_equal: false };
    assert_eq!(c.check_values(5, 5), Err(LyapunovViolation::Increased { v_t: 5, v_t1: 5 }));
    assert_eq!(c.check_values(5, 4), Ok(()));
    assert_eq!(c.check_values(5, 6), Err(LyapunovViolation::Increased { v_t: 5, v_t1: 6 }));
}

#[test]
fn lyapunov_non_strict_accepts_equal() {
    let c = LyapunovResidualChecker { allow_equal: true };
    assert_eq!(c.check_values(5, 5), Ok(()));
    assert_eq!(c.check_values(5, 6), Err(LyapunovViolation::Increased { v_t: 5, v_t1: 6 }));
}

struct FleetSum;

impl ResidualComputer<Vec<u64>> for FleetSum {
    fn value(&self, g: &Vec<u64>) -> u64 {
        g.iter().sum()
    }
}

#[test]
fn lyapunov_check_step_uses_computed_values() {
    let c = LyapunovResidualChecker { allow_equal: false };
    let before = vec![3, 4];
    let same = vec![5, 2];
    let lower = vec![1, 2];
    assert_eq!(c.check_step(&FleetSum, &before, &same), Err(LyapunovViolation::Increased { v_t: 7, v_t1: 7 }));
    assert_eq!(c.check_step(&FleetSum, &before, &lower), Ok(()));
}
