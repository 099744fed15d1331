//! Energy samples of the orchestration layer.
use vstd::prelude::*;
use crate::risk::SCALE;

verus! {

/// A timestamped energy baseline; baselines in ticks of a MWz, utilization in
/// ticks of one unit.
pub struct EnergySample {
    pub timestamp: String,
    pub baseline_x_mwz: u64,
    pub baseline_y_mwz: u64,
    pub target_utilization: u64,
}

/// Relies on std::time::SystemTime::now, chrono's `From<SystemTime>` for
/// `DateTime<Utc>` (which takes times before 1970 as negative timestamps) and
/// DateTime::to_rfc3339: the current UTC time as RFC 3339 text, which always
/// holds at least the date. Nothing else is promised of its value. chrono
/// refuses only a clock outside its range of about 262,000 years either
/// side of year 0.
#[verifier::external_body]
fn now_rfc3339() -> (r: String)
    ensures
        r@.len() > 0,
{
    chrono::DateTime::<chrono::Utc>::from(std::time::SystemTime::now()).to_rfc3339()
}

/// Mean of the two baselines times the utilization, in ticks (rounded down).
pub open spec fn efficiency_spec(bx: int, by: int, target: int) -> int {
    (bx + by) / 2 * target / (SCALE as int)
}

impl EnergySample {
    /// A sample stamped with the current time.
    pub fn new(bx: u64, by: u64, target: u64) -> (r: Self)
        ensures
            r.baseline_x_mwz == bx,
            r.baseline_y_mwz == by,
            r.target_utilization == target,
            r.timestamp@.len() > 0,
    {
        EnergySample {
            timestamp: now_rfc3339(),
            baseline_x_mwz: bx,
            baseline_y_mwz: by,
            target_utilization: target,
        }
    }

    pub fn compute_efficiency(&self) -> (r: u128)
        ensures
            r as int == efficiency_spec(
                self.baseline_x_mwz as int,
                self.baseline_y_mwz as int,
                self.target_utilization as int,
            ),
    {
        let avg: u128 = (self.baseline_x_mwz as u128 + self.baseline_y_mwz as u128) / 2;
        assert(avg * (self.target_utilization as u128) < 0x1_0000_0000_0000_0000_0000_0000_0000_0000int) by (nonlinear_arith)
            requires
                avg < 0x1_0000_0000_0000_0000int,
                self.target_utilization < 0x1_0000_0000_0000_0000int,
        ;
        avg * (self.target_utilization as u128) / (SCALE as u128)
    }
}

} // verus!
