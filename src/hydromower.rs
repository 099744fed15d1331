//! Scoring of hydro-mower runs.
use vstd::prelude::*;
use crate::decision::{decision_spec, enforce_safe_step, CorridorDecision};
use crate::region::RegionConfig;
use crate::risk::{
    coord,
    coord_is,
    coord_weights,
    ramp,
    ramp_spec,
    residual_of,
    weight_total,
    weighted_ramp_sum,
    Residual,
    RiskCoord,
    SCALE,
};

verus! {

/// Raw physical test record for one mower configuration, in ticks.
pub struct HydroMowerRun {
    pub nodeid: String,
    pub region: String,
    /// Latitude and longitude in micro-degrees.
    pub lat: i64,
    pub lon: i64,
    pub cutarea_m2_per_cycle: u64,
    pub nozzle_pressure_bar: u64,
    pub flow_l_per_min: u64,
    pub runtime_min: u64,
    pub wateruse_l_per_m2: u64,
    pub energy_equiv_kwh: u64,
    pub noise_dba: u64,
    pub spray_drift_m: u64,
}

/// Normalized eco-scores for a mower run, in ticks.
#[allow(non_snake_case)]
#[derive(Debug, Clone, Copy, PartialEq, Eq, Structural)]
pub struct HydroMowerScore {
    pub rcutquality: u64,
    pub rwateruse: u64,
    pub rnoise: u64,
    pub rspraydrift: u64,
    pub rsafety: u64,
    pub ecoimpact_01: u64,
    pub riskofharm_01: u64,
    pub knowledgefactor_01: u64,
    pub violation_residual_Vt: u64,
}

/// Shard row of one mower run.
#[allow(non_snake_case)]
pub struct HydroMowerShardRow {
    pub nodeid: String,
    pub region: String,
    pub lat: i64,
    pub lon: i64,
    pub cutarea_m2_per_cycle: u64,
    pub nozzle_pressure_bar: u64,
    pub flow_l_per_min: u64,
    pub runtime_min: u64,
    pub wateruse_l_per_m2: u64,
    pub energy_equiv_kwh: u64,
    pub noise_dba: u64,
    pub spray_drift_m: u64,
    pub rcutquality_01: u64,
    pub rwateruse_01: u64,
    pub rnoise_01: u64,
    pub rspraydrift_01: u64,
    pub rsafety_01: u64,
    pub ecoimpact_01: u64,
    pub riskofharm_01: u64,
    pub knowledgefactor_01: u64,
    pub violation_residual_Vt: u64,
    pub hexstamp: String,
    pub notes: String,
}

/// Nozzle pressure (bar, in ticks) up to which the jets count as contained.
pub const SAFE_NOZZLE_PRESSURE: u64 = 6_000_000;

/// Residual of the five mower coordinates with the given values.
pub open spec fn mower_residual_spec(rcut: int, rwater: int, rnoise: int, rdrift: int, rsafety: int) -> int {
    (250_000 * ramp_spec(rcut, 300_000, 1_000_000) + 250_000 * ramp_spec(rwater, 300_000, 1_000_000)
        + 200_000 * ramp_spec(rnoise, 300_000, 1_000_000) + 150_000 * ramp_spec(
        rdrift,
        200_000,
        1_000_000,
    ) + 150_000 * ramp_spec(rsafety, 100_000, 1_000_000)) / (SCALE as int)
}

/// The mower's five coordinates, in order, with the given values.
pub open spec fn mower_coords(
    rx: Seq<RiskCoord>,
    rcut: int,
    rwater: int,
    rnoise: int,
    rdrift: int,
    rsafety: int,
) -> bool {
    &&& rx.len() == 5
    &&& coord_is(rx[0], "rcutquality"@, rcut, 300_000, 600_000, 1_000_000, 250_000, 30)
    &&& coord_is(rx[1], "rwateruse"@, rwater, 300_000, 600_000, 1_000_000, 250_000, 31)
    &&& coord_is(rx[2], "rnoise"@, rnoise, 300_000, 700_000, 1_000_000, 200_000, 32)
    &&& coord_is(rx[3], "rspraydrift"@, rdrift, 200_000, 600_000, 1_000_000, 150_000, 33)
    &&& coord_is(rx[4], "rsafety"@, rsafety, 100_000, 500_000, 1_000_000, 150_000, 34)
}

/// The weights of the mower's coordinates, in order.
pub open spec fn mower_weights() -> Seq<u64> {
    seq![250_000u64, 250_000, 200_000, 150_000, 150_000]
}

/// The score a run gets.
pub open spec fn mower_score_spec(run: HydroMowerRun) -> HydroMowerScore {
    let rwater = ramp_spec(run.wateruse_l_per_m2 as int, 2_000_000, 8_000_000);
    let rnoise = ramp_spec(run.noise_dba as int, 70_000_000, 90_000_000);
    let rdrift = ramp_spec(run.spray_drift_m as int, 500_000, 2_000_000);
    let rsafety: int = if run.nozzle_pressure_bar <= SAFE_NOZZLE_PRESSURE {
        200_000
    } else {
        800_000
    };
    let vt = mower_residual_spec(rwater, rwater, rnoise, rdrift, rsafety);
    HydroMowerScore {
        rcutquality: rwater as u64,
        rwateruse: rwater as u64,
        rnoise: rnoise as u64,
        rspraydrift: rdrift as u64,
        rsafety: rsafety as u64,
        ecoimpact_01: (SCALE - rwater) as u64,
        riskofharm_01: if vt < SCALE {
            vt as u64
        } else {
            SCALE
        },
        knowledgefactor_01: 930_000,
        violation_residual_Vt: vt as u64,
    }
}

/// The mower's residual over its five coordinates.
pub fn mower_residual(rcut: u64, rwater: u64, rnoise: u64, rdrift: u64, rsafety: u64) -> (r: Residual)
    ensures
        r.wf(),
        mower_coords(r.rx@, rcut as int, rwater as int, rnoise as int, rdrift as int, rsafety as int),
        r.weights@ == mower_weights(),
        r.vt as int == mower_residual_spec(rcut as int, rwater as int, rnoise as int, rdrift as int, rsafety as int),
{
    let rx = vec![
        coord("rcutquality", rcut, 300_000, 600_000, 1_000_000, 250_000, 30),
        coord("rwateruse", rwater, 300_000, 600_000, 1_000_000, 250_000, 31),
        coord("rnoise", rnoise, 300_000, 700_000, 1_000_000, 200_000, 32),
        coord("rspraydrift", rdrift, 200_000, 600_000, 1_000_000, 150_000, 33),
        coord("rsafety", rsafety, 100_000, 500_000, 1_000_000, 150_000, 34),
    ];
    proof {
        let w = coord_weights(rx@);
        reveal_with_fuel(weight_total, 6);
        reveal_with_fuel(weighted_ramp_sum, 6);
        assert(w =~= mower_weights());
        assert(forall|i: int| 0 <= i < rx@.len() ==> (#[trigger] rx@[i]).thresholds_ordered());
    }
    let r = residual_of(rx);
    proof {
        reveal_with_fuel(weighted_ramp_sum, 6);
    }
    r
}

/// Maps raw measurements onto normalized risk coordinates.
pub fn score_hydromower_run(run: &HydroMowerRun, region: &RegionConfig) -> (r: HydroMowerScore)
    ensures
        r == mower_score_spec(*run),
{
    let rwateruse = ramp(run.wateruse_l_per_m2, 2_000_000, 8_000_000);
    let rnoise = ramp(run.noise_dba, 70_000_000, 90_000_000);
    let rspraydrift = ramp(run.spray_drift_m, 500_000, 2_000_000);
    let rcutquality = if rwateruse < SCALE {
        rwateruse
    } else {
        SCALE
    };
    let rsafety: u64 = if run.nozzle_pressure_bar <= SAFE_NOZZLE_PRESSURE {
        200_000
    } else {
        800_000
    };
    let residual = mower_residual(rcutquality, rwateruse, rnoise, rspraydrift, rsafety);
    let ecoimpact_01 = SCALE - rwateruse;
    let riskofharm_01 = if residual.vt < SCALE {
        residual.vt
    } else {
        SCALE
    };
    HydroMowerScore {
        rcutquality,
        rwateruse,
        rnoise,
        rspraydrift,
        rsafety,
        ecoimpact_01,
        riskofharm_01,
        knowledgefactor_01: 930_000,
        violation_residual_Vt: residual.vt,
    }
}

/// Scores a run, decides the step against the previous residual, and builds
/// the shard row; the new residual comes back for the next step.
pub fn hydromower_to_shard_row(
    prev_residual: &Residual,
    run: &HydroMowerRun,
    region: &RegionConfig,
    hexstamp: String,
    notes: String,
) -> (r: (CorridorDecision, HydroMowerShardRow, Residual))
    ensures
        r.2.wf(),
        r.2.vt == mower_score_spec(*run).violation_residual_Vt,
        r.0 == decision_spec(*prev_residual, r.2),
        mower_coords(
            r.2.rx@,
            mower_score_spec(*run).rcutquality as int,
            mower_score_spec(*run).rwateruse as int,
            mower_score_spec(*run).rnoise as int,
            mower_score_spec(*run).rspraydrift as int,
            mower_score_spec(*run).rsafety as int,
        ),
        r.2.weights@ == mower_weights(),
        r.1.nodeid == run.nodeid,
        r.1.region == run.region,
        r.1.lat == run.lat && r.1.lon == run.lon,
        r.1.cutarea_m2_per_cycle == run.cutarea_m2_per_cycle,
        r.1.nozzle_pressure_bar == run.nozzle_pressure_bar,
        r.1.flow_l_per_min == run.flow_l_per_min,
        r.1.runtime_min == run.runtime_min,
        r.1.wateruse_l_per_m2 == run.wateruse_l_per_m2,
        r.1.energy_equiv_kwh == run.energy_equiv_kwh,
        r.1.noise_dba == run.noise_dba,
        r.1.spray_drift_m == run.spray_drift_m,
        r.1.rcutquality_01 == mower_score_spec(*run).rcutquality,
        r.1.rwateruse_01 == mower_score_spec(*run).rwateruse,
        r.1.rnoise_01 == mower_score_spec(*run).rnoise,
        r.1.rspraydrift_01 == mower_score_spec(*run).rspraydrift,
        r.1.rsafety_01 == mower_score_spec(*run).rsafety,
        r.1.ecoimpact_01 == mower_score_spec(*run).ecoimpact_01,
        r.1.riskofharm_01 == mower_score_spec(*run).riskofharm_01,
        r.1.knowledgefactor_01 == mower_score_spec(*run).knowledgefactor_01,
        r.1.violation_residual_Vt == r.2.vt,
        r.1.hexstamp == hexstamp,
        r.1.notes == notes,
{
    let score = score_hydromower_run(run, region);
    let next_residual = mower_residual(
        score.rcutquality,
        score.rwateruse,
        score.rnoise,
        score.rspraydrift,
        score.rsafety,
    );
    let decision = enforce_safe_step(prev_residual, &next_residual);
    let row = HydroMowerShardRow {
        nodeid: run.nodeid.clone(),
        region: run.region.clone(),
        lat: run.lat,
        lon: run.lon,
        cutarea_m2_per_cycle: run.cutarea_m2_per_cycle,
        nozzle_pressure_bar: run.nozzle_pressure_bar,
        flow_l_per_min: run.flow_l_per_min,
        runtime_min: run.runtime_min,
        wateruse_l_per_m2: run.wateruse_l_per_m2,
        energy_equiv_kwh: run.energy_equiv_kwh,
        noise_dba: run.noise_dba,
        spray_drift_m: run.spray_drift_m,
        rcutquality_01: score.rcutquality,
        rwateruse_01: score.rwateruse,
        rnoise_01: score.rnoise,
        rspraydrift_01: score.rspraydrift,
        rsafety_01: score.rsafety,
        ecoimpact_01: score.ecoimpact_01,
        riskofharm_01: score.riskofharm_01,
        knowledgefactor_01: score.knowledgefactor_01,
        violation_residual_Vt: next_residual.vt,
        hexstamp,
        notes,
    };
    (decision, row, next_residual)
}

} // verus!
