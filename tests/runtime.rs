use eco_sys::bioscale_guard::{BioIntegrationProfile, BiocompatGuard, BiocompatGuardConfig, BiocompatViolation, NeuroRightsSnapshot};
use eco_sys::corridor::{CorridorCheck, CorridorViolation, InfraNodeShardSnapshot};
use eco_sys::lyapunov::LyapunovResidualChecker;
use eco_sys::objective::{BiocompatObjective, BiocompatObjectiveConfig, KerVector, ObjectiveTermWeights};
use eco_sys::risk::RiskCoord;
use eco_sys::runner::{MpcRuntime, MpcRuntimeConfig, MpcRuntimeError};
use eco_sys::solver::{MpcHorizonConfig, MpcSolveError, MpcSolver};
use eco_sys::state::{MpcControlSlice, MpcStateSlice, StateExtractor};

struct CountingSolver {
    calls: usize,
    fail: Option<MpcSolveError>,
    empty: bool,
}

impl MpcSolver for CountingSolver {
    fn solve(
        &mut self,
        _cfg: &MpcHorizonConfig,
        _obj: &BiocompatObjective,
        x0: &MpcStateSlice,
    ) -> Result<Vec<MpcControlSlice>, MpcSolveError> {
        self.calls += 1;
        if let Some(e) = self.fail {
            return Err(e);
        }
        if self.empty {
            return Ok(vec![]);
        }
        Ok(vec![
            MpcControlSlice { node_id: x0.node_id, u: vec![250_000, 750_000] },
            MpcControlSlice { node_id: x0.node_id, u: vec![0, 0] },
        ])
    }
}

struct ValuesExtractor;

impl StateExtractor for ValuesExtractor {
    fn extract_state(&self, snap: &InfraNodeShardSnapshot) -> MpcStateSlice {
        MpcStateSlice { node_id: snap.node_id, x: snap.coords.iter().map(|c| c.value).collect() }
    }

    fn extract_control_hint(&self, snap: &InfraNodeShardSnapshot) -> MpcControlSlice {
        MpcControlSlice { node_id: snap.node_id, u: vec![0; snap.coords.len()] }
    }
}

fn runtime(fail: Option<MpcSolveError>, steps: usize) -> MpcRuntime<CountingSolver, ValuesExtractor> {
    MpcRuntime::new(
        MpcRuntimeConfig { horizon: MpcHorizonConfig { horizon_steps: steps, dt_seconds: 1_000_000, max_iterations: 50 } },
        CountingSolver { calls: 0, fail, empty: false },
        ValuesExtractor,
        CorridorCheck,
        LyapunovResidualChecker { allow_equal: true },
        BiocompatGuard::new(BiocompatGuardConfig { max_bio_risk: 300_000, min_bio_eco: 500_000 }),
    )
}

fn snapshot(noise: u64) -> InfraNodeShardSnapshot {
    InfraNodeShardSnapshot {
        node_id: 7,
        coords: vec![
            RiskCoord::new("rwateruse".to_string(), 100_000, 300_000, 600_000, 1_000_000, 500_000, 31).unwrap(),
            RiskCoord::new("rnoise".to_string(), noise, 300_000, 700_000, 1_000_000, 500_000, 32).unwrap(),
        ],
    }
}

fn objective() -> BiocompatObjective {
    BiocompatObjective::new_checked(BiocompatObjectiveConfig {
        e_min: 100_000,
        r_max: 900_000,
        forbid_distress_coupling: true,
        max_cognitive_load: None,
        weights: ObjectiveTermWeights {
            lambda_energy: 1_000_000,
            lambda_degradation: 1_000_000,
            lambda_sparsity: 1_000_000,
            lambda_slaviolation: 1_000_000,
        },
    })
    .unwrap()
}

fn ker() -> KerVector {
    KerVector { exergy_cost: 0, degradation_index: 0, active_node_fraction: 0, sla_violation_ratio: 0 }
}

#[test]
fn corridor_failure_reaches_neither_guard_nor_solver() {
    let mut rt = runtime(None, 10);
    let bad_neuro = NeuroRightsSnapshot { normalized_risk: 900_000, eco_impact_index: 0 };
    let coupled = BioIntegrationProfile { reward_couples_to_distress: true };
    let r = rt.step(&snapshot(1_000_000), &ker(), 500_000, 100_000, Some(&bad_neuro), Some(&coupled), &objective());
    match r {
        Err(MpcRuntimeError::Corridor(CorridorViolation::Local { varid, observed, threshold })) => {
            assert_eq!(varid, "rnoise");
            assert_eq!(observed, 1_000_000);
            assert_eq!(threshold, 1_000_000);
        }
        other => panic!("unexpected outcome: {:?}", other),
    }
    assert_eq!(rt.solver.calls, 0);
}

#[test]
fn guard_failure_stops_before_solver() {
    let mut rt = runtime(None, 10);
    let n = NeuroRightsSnapshot { normalized_risk: 100_000, eco_impact_index: 900_000 };
    let p = BioIntegrationProfile { reward_couples_to_distress: true };
    let r = rt.step(&snapshot(200_000), &ker(), 500_000, 100_000, Some(&n), Some(&p), &objective());
    assert!(matches!(r, Err(MpcRuntimeError::Biocompat(BiocompatViolation::DistressCoupling))));
    assert_eq!(rt.solver.calls, 0);
}

#[test]
fn guard_skipped_without_profile() {
    let mut rt = runtime(None, 10);
    let n = NeuroRightsSnapshot { normalized_risk: 900_000, eco_impact_index: 0 };
    let r = rt.step(&snapshot(200_000), &ker(), 500_000, 100_000, Some(&n), None, &objective());
    let cmd = r.unwrap();
    assert_eq!(cmd.node_id, 7);
    assert_eq!(cmd.setpoints, vec![250_000, 750_000]);
    assert_eq!(rt.solver.calls, 1);
}

#[test]
fn invalid_horizon_is_refused_before_solving() {
    let mut rt = runtime(None, 0);
    let r = rt.step(&snapshot(200_000), &ker(), 500_000, 100_000, None, None, &objective());
    assert!(matches!(r, Err(MpcRuntimeError::Solver(MpcSolveError::InvalidConfig))));
    assert_eq!(rt.solver.calls, 0);
}

#[test]
fn solver_failure_is_reported() {
    let mut rt = runtime(Some(MpcSolveError::Infeasible), 10);
    let r = rt.step(&snapshot(200_000), &ker(), 500_000, 100_000, None, None, &objective());
    assert!(matches!(r, Err(MpcRuntimeError::Solver(MpcSolveError::Infeasible))));
    assert_eq!(rt.solver.calls, 1);
}

#[test]
fn empty_control_sequence_is_internal_failure() {
    let mut rt = runtime(None, 10);
    rt.solver.empty = true;
    let r = rt.step(&snapshot(200_000), &ker(), 500_000, 100_000, None, None, &objective());
    assert!(matches!(r, Err(MpcRuntimeError::Solver(MpcSolveError::Internal))));
}

#[test]
fn corridor_check_passes_clean_snapshot() {
    assert!(CorridorCheck.check_snapshot(&snapshot(999_999)).is_ok());
}

#[test]
fn solution_error_comes_back_unchanged() {
    let r = eco_sys::runner::command_from_solution(&snapshot(0), Err(MpcSolveError::Infeasible));
    assert!(matches!(r, Err(MpcRuntimeError::Solver(MpcSolveError::Infeasible))));
}

#[test]
fn empty_solution_is_internal_failure() {
    let r = eco_sys::runner::command_from_solution(&snapshot(0), Ok(vec![]));
    assert!(matches!(r, Err(MpcRuntimeError::Solver(MpcSolveError::Internal))));
}

#[test]
fn first_control_slice_becomes_command() {
    let sol = vec![
        MpcControlSlice { node_id: 99, u: vec![1, 2, 3] },
        MpcControlSlice { node_id: 99, u: vec![4] },
    ];
    let cmd = eco_sys::runner::command_from_solution(&snapshot(0), Ok(sol)).unwrap();
    assert_eq!(cmd.node_id, 7);
    assert_eq!(cmd.setpoints, vec![1, 2, 3]);
}
