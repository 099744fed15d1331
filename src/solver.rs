//! The pluggable solver interface.
use vstd::prelude::*;
use crate::objective::BiocompatObjective;
use crate::state::{MpcControlSlice, MpcStateSlice};

verus! {

#[derive(Debug, Clone, Copy, PartialEq, Eq, Structural)]
pub struct MpcHorizonConfig {
    pub horizon_steps: usize,
    /// Time step, in ticks of a second (microseconds).
    pub dt_seconds: u64,
    pub max_iterations: usize,
}

#[derive(Debug, Clone, Copy, PartialEq, Eq, Structural)]
pub enum MpcSolveError {
    /// Some horizon parameter is zero.
    InvalidConfig,
    /// No control sequence keeps the objective finite over the horizon.
    Infeasible,
    /// Solver-specific numerical failure.
    Internal,
}

impl MpcHorizonConfig {
    pub open spec fn valid(&self) -> bool {
        self.horizon_steps > 0 && self.dt_seconds > 0 && self.max_iterations > 0
    }

    /// Every horizon parameter is positive.
    pub fn is_valid(&self) -> (r: bool)
        ensures
            r == self.valid(),
    {
        self.horizon_steps > 0 && self.dt_seconds > 0 && self.max_iterations > 0
    }
}

/// Produces a control sequence for a horizon, objective and initial state.
pub trait MpcSolver {
    fn solve(
        &mut self,
        cfg: &MpcHorizonConfig,
        obj: &BiocompatObjective,
        x0: &MpcStateSlice,
    ) -> Result<Vec<MpcControlSlice>, MpcSolveError>;
}

} // verus!
