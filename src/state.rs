//! Normalized state and control slices exchanged with the solver.
use vstd::prelude::*;
use crate::corridor::InfraNodeShardSnapshot;

verus! {

/// State vector `x`, each entry in ticks of `[0, 1]`, tagged with its node.
pub struct MpcStateSlice {
    pub node_id: u64,
    pub x: Vec<u64>,
}

/// Control vector `u`, each entry in ticks of `[0, 1]`, tagged with its node.
pub struct MpcControlSlice {
    pub node_id: u64,
    pub u: Vec<u64>,
}

/// Maps a node snapshot onto normalized slices.
pub trait StateExtractor {
    fn extract_state(&self, snap: &InfraNodeShardSnapshot) -> MpcStateSlice;

    fn extract_control_hint(&self, snap: &InfraNodeShardSnapshot) -> MpcControlSlice;
}

} // verus!
