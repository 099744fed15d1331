//! The per-asset runtime: corridor check, biocompatibility guard, solve.
use vstd::prelude::*;
use crate::bioscale_guard::{
    guard_spec,
    BioIntegrationProfile,
    BiocompatGuard,
    BiocompatViolation,
    NeuroRightsSnapshot,
};
use crate::corridor::{
    reports_first_violation,
    CorridorCheck,
    CorridorViolation,
    InfraControlCommand,
    InfraNodeShardSnapshot,
};
use crate::decision::any_at_hard;
use crate::lyapunov::{LyapunovResidualChecker, LyapunovViolation};
use crate::objective::{BiocompatObjective, KerVector};
use crate::solver::{MpcHorizonConfig, MpcSolveError, MpcSolver};
use crate::state::{MpcControlSlice, MpcStateSlice, StateExtractor};

verus! {

#[derive(Debug, Clone, Copy, PartialEq, Eq, Structural)]
pub struct MpcRuntimeConfig {
    pub horizon: MpcHorizonConfig,
}

#[derive(Debug)]
pub enum MpcRuntimeError {
    Corridor(CorridorViolation),
    Lyapunov(LyapunovViolation),
    Biocompat(BiocompatViolation),
    Solver(MpcSolveError),
}

/// Runs one control step per call, failing fast at the first violation.
pub struct MpcRuntime<S: MpcSolver, X: StateExtractor> {
    pub cfg: MpcRuntimeConfig,
    pub solver: S,
    pub extractor: X,
    pub corridor_check: CorridorCheck,
    pub lyap_check: LyapunovResidualChecker,
    pub bio_guard: BiocompatGuard,
}

/// The guard's outcome on a step: it runs only when both a neuro snapshot and
/// an integration profile are supplied.
pub open spec fn bio_outcome(
    guard: BiocompatGuard,
    neuro: Option<&NeuroRightsSnapshot>,
    profile: Option<&BioIntegrationProfile>,
) -> Result<(), BiocompatViolation> {
    match (neuro, profile) {
        (Some(n), Some(p)) => guard_spec(guard.config(), *n, *p),
        _ => Ok(()),
    }
}

/// Turns what the solver returned into the step's result: its error comes
/// back unchanged, an empty sequence is an internal failure, and otherwise
/// the first control slice becomes the node's command.
pub fn command_from_solution(
    shard: &InfraNodeShardSnapshot,
    sol: Result<Vec<MpcControlSlice>, MpcSolveError>,
) -> (r: Result<InfraControlCommand, MpcRuntimeError>)
    ensures
        sol matches Err(e) ==> (r matches Err(MpcRuntimeError::Solver(x)) && x == e),
        sol matches Ok(cs) ==> (cs@.len() == 0 ==> r matches Err(
            MpcRuntimeError::Solver(MpcSolveError::Internal),
        )),
        sol matches Ok(cs) ==> (cs@.len() > 0 ==> (r matches Ok(cmd) && cmd.node_id
            == shard.node_id && cmd.setpoints@ == cs@[0].u@)),
{
    match sol {
        Err(e) => Err(MpcRuntimeError::Solver(e)),
        Ok(controls) => {
            if controls.len() == 0 {
                Err(MpcRuntimeError::Solver(MpcSolveError::Internal))
            } else {
                Ok(shard.control_from_mpc(&controls[0]))
            }
        },
    }
}

impl<S: MpcSolver, X: StateExtractor> MpcRuntime<S, X> {
    pub fn new(
        cfg: MpcRuntimeConfig,
        solver: S,
        extractor: X,
        corridor_check: CorridorCheck,
        lyap_check: LyapunovResidualChecker,
        bio_guard: BiocompatGuard,
    ) -> (r: Self)
        ensures
            r == (Self { cfg, solver, extractor, corridor_check, lyap_check, bio_guard }),
    {
        Self { cfg, solver, extractor, corridor_check, lyap_check, bio_guard }
    }

    /// One control step, in fixed order: corridor check, biocompatibility
    /// guard (when both bio inputs are given), horizon validation and solve,
    /// then `command_from_solution` on what the solver returned. A rejected
    /// step leaves the runtime, and so the solver, untouched.
    pub fn step(
        &mut self,
        shard: &InfraNodeShardSnapshot,
        ker: &KerVector,
        eco: i64,
        risk: i64,
        neuro: Option<&NeuroRightsSnapshot>,
        bio_profile: Option<&BioIntegrationProfile>,
        obj: &BiocompatObjective,
    ) -> (r: Result<InfraControlCommand, MpcRuntimeError>)
        ensures
            any_at_hard(shard.coords@) ==> {
                &&& r matches Err(MpcRuntimeError::Corridor(v))
                &&& reports_first_violation(shard.coords@, v)
                &&& *final(self) == *old(self)
            },
            !any_at_hard(shard.coords@) && bio_outcome(old(self).bio_guard, neuro, bio_profile)
                is Err ==> {
                &&& r matches Err(MpcRuntimeError::Biocompat(e))
                &&& bio_outcome(old(self).bio_guard, neuro, bio_profile) == Err::<
                    (),
                    BiocompatViolation,
                >(e)
                &&& *final(self) == *old(self)
            },
            !any_at_hard(shard.coords@) && bio_outcome(old(self).bio_guard, neuro, bio_profile)
                is Ok && !old(self).cfg.horizon.valid() ==> {
                &&& r matches Err(MpcRuntimeError::Solver(MpcSolveError::InvalidConfig))
                &&& *final(self) == *old(self)
            },
            !any_at_hard(shard.coords@) && bio_outcome(old(self).bio_guard, neuro, bio_profile)
                is Ok && old(self).cfg.horizon.valid() ==> (r is Ok || r matches Err(
                MpcRuntimeError::Solver(_),
            )),
            r matches Ok(cmd) ==> cmd.node_id == shard.node_id,
            final(self).cfg == old(self).cfg,
            final(self).bio_guard == old(self).bio_guard,
    {
        // 1. Local corridors.
        match self.corridor_check.check_snapshot(shard) {
            Ok(()) => {},
            Err(v) => {
                return Err(MpcRuntimeError::Corridor(v));
            },
        }
        // 2. Bioscale guard, for organically-integrated nodes.
        match (neuro, bio_profile) {
            (Some(n), Some(p)) => {
                match self.bio_guard.check_neurorights(n, p) {
                    Ok(()) => {},
                    Err(e) => {
                        return Err(MpcRuntimeError::Biocompat(e));
                    },
                }
            },
            _ => {},
        }
        // 3. Horizon validation, before any solving attempt.
        if !self.cfg.horizon.is_valid() {
            return Err(MpcRuntimeError::Solver(MpcSolveError::InvalidConfig));
        }
        // 4. State extraction and solve.
        let x0: MpcStateSlice = self.extractor.extract_state(shard);
        let horizon = self.cfg.horizon;
        let sol = self.solver.solve(&horizon, obj, &x0);
        // 5. The first control slice becomes the command.
        command_from_solution(shard, sol)
    }
}

} // verus!
