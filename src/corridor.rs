//! The stateless corridor check on a node snapshot.
use vstd::prelude::*;
use crate::decision::any_at_hard;
use crate::risk::RiskCoord;
use crate::state::MpcControlSlice;

verus! {

/// A point-in-time snapshot of one node: its corridor coordinates, whose
/// thresholds come from the region's policy configuration.
pub struct InfraNodeShardSnapshot {
    pub node_id: u64,
    pub coords: Vec<RiskCoord>,
}

/// A command in the node's native actuation representation.
#[derive(Debug)]
pub struct InfraControlCommand {
    pub node_id: u64,
    pub setpoints: Vec<u64>,
}

#[derive(Debug, Clone, Copy, PartialEq, Eq, Structural)]
pub struct CorridorCheck;

#[derive(Debug)]
pub enum CorridorViolation {
    /// A variable reached its hard corridor bound.
    Local { varid: String, observed: u64, threshold: u64 },
}

/// `v` reports coordinate `i` of `coords`, the first one at its hard bound.
pub open spec fn reports_first_violation(coords: Seq<RiskCoord>, v: CorridorViolation) -> bool {
    exists|i: int|
        #![trigger coords[i]]
        {
            &&& 0 <= i < coords.len()
            &&& coords[i].value >= coords[i].hard
            &&& forall|j: int| 0 <= j < i ==> (#[trigger] coords[j]).value < coords[j].hard
            &&& v->varid@ == coords[i].varid@
            &&& v->observed == coords[i].value
            &&& v->threshold == coords[i].hard
        }
}

impl InfraNodeShardSnapshot {
    /// Materializes a control slice as this node's command.
    pub fn control_from_mpc(&self, c: &MpcControlSlice) -> (r: InfraControlCommand)
        ensures
            r.node_id == self.node_id,
            r.setpoints@ == c.u@,
    {
        let mut setpoints: Vec<u64> = Vec::new();
        let mut i: usize = 0;
        while i < c.u.len()
            invariant
                i <= c.u@.len(),
                setpoints@ == c.u@.subrange(0, i as int),
            decreases c.u.len() - i,
        {
            setpoints.push(c.u[i]);
            i = i + 1;
            proof {
                assert(setpoints@ =~= c.u@.subrange(0, i as int));
            }
        }
        proof {
            assert(setpoints@ =~= c.u@);
        }
        InfraControlCommand { node_id: self.node_id, setpoints }
    }
}

impl CorridorCheck {
    /// Passes a snapshot with every coordinate below its hard bound; otherwise
    /// reports the first coordinate at or past it.
    pub fn check_snapshot(&self, snap: &InfraNodeShardSnapshot) -> (r: Result<
        (),
        CorridorViolation,
    >)
        ensures
            r is Ok <==> !any_at_hard(snap.coords@),
            r matches Err(v) ==> reports_first_violation(snap.coords@, v),
    {
        let mut i: usize = 0;
        while i < snap.coords.len()
            invariant
                i <= snap.coords@.len(),
                forall|j: int| 0 <= j < i ==> (#[trigger] snap.coords@[j]).value < snap.coords@[j].hard,
            decreases snap.coords.len() - i,
        {
            let c = &snap.coords[i];
            if c.value >= c.hard {
                let v = CorridorViolation::Local {
                    varid: c.varid.clone(),
                    observed: c.value,
                    threshold: c.hard,
                };
                proof {
                    assert(snap.coords@[i as int] == *c);
                }
                return Err(v);
            }
            i = i + 1;
        }
        Ok(())
    }
}

} // verus!
