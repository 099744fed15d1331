//! Region policy values used by the domain scorers.
use vstd::prelude::*;

verus! {

/// Corridor values of one region, in ticks.
#[derive(Debug, Clone, Copy, PartialEq, Eq, Structural)]
pub struct RegionConfig {
    /// Biodegradation target (t90) in days.
    pub t90target_days: u64,
    /// Biodegradation hard limit (t90) in days.
    pub t90hardlimit_days: u64,
    pub rtox_safe: u64,
    pub rtox_gold: u64,
    pub rtox_hard: u64,
}

impl RegionConfig {
    /// The toxicity corridor is ordered.
    pub open spec fn wf(&self) -> bool {
        self.rtox_safe <= self.rtox_gold <= self.rtox_hard
    }
}

} // verus!
