//! The fleet-level Lyapunov residual checker.
use vstd::prelude::*;

verus! {

/// Computes the value of a fleet-global residual snapshot, in ticks.
pub trait ResidualComputer<G> {
    fn value(&self, g: &G) -> u64;
}

#[derive(Debug, Clone, Copy, PartialEq, Eq, Structural)]
pub struct LyapunovResidualChecker {
    /// Accept an unchanged residual (non-strict decrease).
    pub allow_equal: bool,
}

#[derive(Debug, Clone, Copy, PartialEq, Eq, Structural)]
pub enum LyapunovViolation {
    Increased { v_t: u64, v_t1: u64 },
}

impl LyapunovResidualChecker {
    /// The residual went from `v_t` to `v_t1` as the configured monotonicity asks.
    pub open spec fn accepts(&self, v_t: int, v_t1: int) -> bool {
        if self.allow_equal {
            v_t1 <= v_t
        } else {
            v_t1 < v_t
        }
    }

    /// Checks one step given the two residual values.
    pub fn check_values(&self, v_t: u64, v_t1: u64) -> (r: Result<(), LyapunovViolation>)
        ensures
            r is Ok <==> self.accepts(v_t as int, v_t1 as int),
            r is Err ==> r == Err::<(), LyapunovViolation>(
                LyapunovViolation::Increased { v_t, v_t1 },
            ),
    {
        if self.allow_equal {
            if v_t1 > v_t {
                return Err(LyapunovViolation::Increased { v_t, v_t1 });
            }
        } else if v_t1 >= v_t {
            return Err(LyapunovViolation::Increased { v_t, v_t1 });
        }
        Ok(())
    }

    /// Checks one step of the global residual, computed by `resid_comp`.
    /// A refusal carries the two values that were compared.
    pub fn check_step<G, R: ResidualComputer<G>>(
        &self,
        resid_comp: &R,
        before: &G,
        after: &G,
    ) -> (r: Result<(), LyapunovViolation>)
        ensures
            r matches Err(LyapunovViolation::Increased { v_t, v_t1 }) ==> !self.accepts(
                v_t as int,
                v_t1 as int,
            ),
    {
        let v_t = resid_comp.value(before);
        let v_t1 = resid_comp.value(after);
        self.check_values(v_t, v_t1)
    }
}

/// Without `allow_equal` an unchanged residual is a violation; with it, an
/// unchanged residual passes and only an increase is refused.
pub proof fn lemma_equal_residual(c: LyapunovResidualChecker, v_t: int, v_t1: int)
    ensures
        !c.allow_equal ==> !c.accepts(v_t, v_t),
        c.allow_equal ==> c.accepts(v_t, v_t),
        c.allow_equal ==> (c.accepts(v_t, v_t1) <==> !(v_t1 > v_t)),
{
}

} // verus!
