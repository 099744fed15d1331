//! Scoring of lawn-clipping biofuel feedstock samples.
use vstd::prelude::*;
use crate::decision::{decision_spec, enforce_safe_step, CorridorDecision};
use crate::region::RegionConfig;
use crate::risk::{
    coord,
    coord_is,
    coord_weights,
    ramp,
    ramp_spec,
    residual_of,
    weight_total,
    weighted_ramp_sum,
    Residual,
    RiskCoord,
    SCALE,
};

verus! {

#[derive(Debug, Clone, Copy, PartialEq, Eq, Structural)]
pub enum ConversionRoute {
    Combustion,
    Digestion,
    Pyrolysis,
}

/// One feedstock sample, in ticks.
pub struct LawnFeedstockSample {
    pub feedstock_id: String,
    pub region: String,
    /// Latitude and longitude in micro-degrees.
    pub lat: i64,
    pub lon: i64,
    pub route: ConversionRoute,
    pub moisture_frac: u64,
    pub ash_frac: u64,
    pub n_percent_dw: u64,
    pub t90_days: u64,
    pub contaminant_rtox_01: u64,
    pub microplastics_r_01: u64,
    pub heavy_metals_r_01: u64,
    pub bioenergy_kwh_per_kg: u64,
    pub co2eq_kg_per_kg: u64,
    pub transport_km: u64,
    pub rtrans_01: u64,
    pub rmat_01: u64,
    pub rman_01: u64,
}

#[allow(non_snake_case)]
#[derive(Debug, Clone, Copy, PartialEq, Eq, Structural)]
pub struct LawnBiofuelScore {
    pub ecoimpact_01: u64,
    pub riskofharm_01: u64,
    pub knowledgefactor_01: u64,
    pub violation_residual_Vt: u64,
}

/// Shard row of one feedstock sample.
#[allow(non_snake_case)]
pub struct LawnBiofuelShardRow {
    pub feedstock_id: String,
    pub region: String,
    pub lat: i64,
    pub lon: i64,
    pub route: String,
    pub moisture_frac: u64,
    pub ash_frac: u64,
    pub n_percent_dw: u64,
    pub contaminant_rtox_01: u64,
    pub microplastics_r_01: u64,
    pub heavy_metals_r_01: u64,
    pub t90_days: u64,
    pub bioenergy_kwh_per_kg: u64,
    pub co2eq_kg_per_kg: u64,
    pub transport_km: u64,
    pub rtrans_01: u64,
    pub rmat_01: u64,
    pub rman_01: u64,
    pub ecoimpact_01: u64,
    pub riskofharm_01: u64,
    pub knowledgefactor_01: u64,
    pub violation_residual_Vt: u64,
    pub hexstamp: String,
    pub notes: String,
}

/// `x` clamped to one unit.
pub open spec fn clamp01(x: int) -> int {
    if x < SCALE {
        x
    } else {
        SCALE as int
    }
}

fn clamp_unit(x: u64) -> (r: u64)
    ensures
        r as int == clamp01(x as int),
{
    if x < SCALE {
        x
    } else {
        SCALE
    }
}

/// The seven normalized coordinate values of a sample, in coordinate order:
/// t90, toxicity, microplastics, metals, transport, material, manufacture.
pub open spec fn lawn_values(s: LawnFeedstockSample, region: RegionConfig) -> Seq<int> {
    seq![
        ramp_spec(s.t90_days as int, region.t90target_days as int, region.t90hardlimit_days as int),
        clamp01(s.contaminant_rtox_01 as int),
        clamp01(s.microplastics_r_01 as int),
        clamp01(s.heavy_metals_r_01 as int),
        clamp01(s.rtrans_01 as int),
        clamp01(s.rmat_01 as int),
        clamp01(s.rman_01 as int),
    ]
}

/// The seven feedstock coordinates, in order, with the values `v`; the
/// toxicity corridor comes from `region`.
pub open spec fn lawn_coords(rx: Seq<RiskCoord>, v: Seq<int>, region: RegionConfig) -> bool {
    &&& rx.len() == 7
    &&& coord_is(rx[0], "rt90"@, v[0], 300_000, 600_000, 1_000_000, 200_000, 40)
    &&& coord_is(
        rx[1],
        "rtox"@,
        v[1],
        region.rtox_safe as int,
        region.rtox_gold as int,
        region.rtox_hard as int,
        250_000,
        41,
    )
    &&& coord_is(rx[2], "rmicro"@, v[2], 100_000, 400_000, 1_000_000, 150_000, 42)
    &&& coord_is(rx[3], "rmetals"@, v[3], 100_000, 400_000, 1_000_000, 100_000, 43)
    &&& coord_is(rx[4], "rtrans"@, v[4], 300_000, 700_000, 1_000_000, 100_000, 44)
    &&& coord_is(rx[5], "rmat"@, v[5], 300_000, 700_000, 1_000_000, 100_000, 45)
    &&& coord_is(rx[6], "rman"@, v[6], 300_000, 700_000, 1_000_000, 100_000, 46)
}

/// The weights of the feedstock coordinates, in order.
pub open spec fn lawn_weights() -> Seq<u64> {
    seq![200_000u64, 250_000, 150_000, 100_000, 100_000, 100_000, 100_000]
}

/// Residual of the seven feedstock coordinates.
pub open spec fn lawn_residual_spec(v: Seq<int>, region: RegionConfig) -> int {
    (200_000 * ramp_spec(v[0], 300_000, 1_000_000) + 250_000 * ramp_spec(
        v[1],
        region.rtox_safe as int,
        region.rtox_hard as int,
    ) + 150_000 * ramp_spec(v[2], 100_000, 1_000_000) + 100_000 * ramp_spec(v[3], 100_000, 1_000_000)
        + 100_000 * ramp_spec(v[4], 300_000, 1_000_000) + 100_000 * ramp_spec(v[5], 300_000, 1_000_000)
        + 100_000 * ramp_spec(v[6], 300_000, 1_000_000)) / (SCALE as int)
}

/// Eco-impact before the hard gates: energy yield, carbon and transport.
pub open spec fn eco_raw_spec(s: LawnFeedstockSample, rtrans: int) -> int {
    let e_energy = clamp01(s.bioenergy_kwh_per_kg as int / 3);
    let e_carbon: int = if s.co2eq_kg_per_kg >= 1_500_000 {
        0
    } else {
        (1_500_000 - s.co2eq_kg_per_kg) * 2 / 3
    };
    let e_transport = SCALE - rtrans;
    (400_000 * e_energy + 400_000 * e_carbon + 200_000 * e_transport) / (SCALE as int)
}

/// The score a sample gets.
pub open spec fn lawn_score_spec(s: LawnFeedstockSample, region: RegionConfig) -> LawnBiofuelScore {
    let v = lawn_values(s, region);
    let vt = lawn_residual_spec(v, region);
    let hard_gate = v[0] >= SCALE || v[1] >= SCALE || v[2] >= SCALE || v[3] >= SCALE;
    LawnBiofuelScore {
        ecoimpact_01: if hard_gate {
            0
        } else {
            eco_raw_spec(s, v[4]) as u64
        },
        riskofharm_01: clamp01(vt) as u64,
        knowledgefactor_01: 930_000,
        violation_residual_Vt: vt as u64,
    }
}

fn eco_raw(s: &LawnFeedstockSample, rtrans: u64) -> (r: u64)
    requires
        rtrans <= SCALE,
    ensures
        r as int == eco_raw_spec(*s, rtrans as int),
{
    let e_energy = clamp_unit(s.bioenergy_kwh_per_kg / 3);
    let e_carbon: u64 = if s.co2eq_kg_per_kg >= 1_500_000 {
        0
    } else {
        (1_500_000 - s.co2eq_kg_per_kg) * 2 / 3
    };
    let e_transport = SCALE - rtrans;
    (400_000 * e_energy + 400_000 * e_carbon + 200_000 * e_transport) / SCALE
}

/// Scores a sample and builds its residual.
pub fn score_lawn_biofuel(s: &LawnFeedstockSample, region: &RegionConfig) -> (r: (LawnBiofuelScore, Residual))
    requires
        region.wf(),
    ensures
        r.0 == lawn_score_spec(*s, *region),
        r.1.wf(),
        lawn_coords(r.1.rx@, lawn_values(*s, *region), *region),
        r.1.weights@ == lawn_weights(),
        r.1.vt == r.0.violation_residual_Vt,
        r.1.vt as int == r.1.spec_value(),
{
    let rt90 = ramp(s.t90_days, region.t90target_days, region.t90hardlimit_days);
    let rtox = clamp_unit(s.contaminant_rtox_01);
    let rmicro = clamp_unit(s.microplastics_r_01);
    let rmetals = clamp_unit(s.heavy_metals_r_01);
    let rtrans = clamp_unit(s.rtrans_01);
    let rmat = clamp_unit(s.rmat_01);
    let rman = clamp_unit(s.rman_01);
    let rx = vec![
        coord("rt90", rt90, 300_000, 600_000, 1_000_000, 200_000, 40),
        coord("rtox", rtox, region.rtox_safe, region.rtox_gold, region.rtox_hard, 250_000, 41),
        coord("rmicro", rmicro, 100_000, 400_000, 1_000_000, 150_000, 42),
        coord("rmetals", rmetals, 100_000, 400_000, 1_000_000, 100_000, 43),
        coord("rtrans", rtrans, 300_000, 700_000, 1_000_000, 100_000, 44),
        coord("rmat", rmat, 300_000, 700_000, 1_000_000, 100_000, 45),
        coord("rman", rman, 300_000, 700_000, 1_000_000, 100_000, 46),
    ];
    proof {
        let w = coord_weights(rx@);
        reveal_with_fuel(weight_total, 8);
        assert(w =~= lawn_weights());
        assert(forall|i: int| 0 <= i < rx@.len() ==> (#[trigger] rx@[i]).thresholds_ordered());
    }
    let residual = residual_of(rx);
    proof {
        reveal_with_fuel(weighted_ramp_sum, 8);
    }
    let e_raw = eco_raw(s, rtrans);
    let hard_gate = rt90 >= SCALE || rtox >= SCALE || rmicro >= SCALE || rmetals >= SCALE;
    let ecoimpact_final: u64 = if hard_gate {
        0
    } else {
        e_raw
    };
    let score = LawnBiofuelScore {
        ecoimpact_01: ecoimpact_final,
        riskofharm_01: clamp_unit(residual.vt),
        knowledgefactor_01: 930_000,
        violation_residual_Vt: residual.vt,
    };
    (score, residual)
}

/// The label a conversion route carries in a shard row.
pub open spec fn route_label_spec(route: ConversionRoute) -> Seq<char> {
    match route {
        ConversionRoute::Combustion => "COMBUSTION"@,
        ConversionRoute::Digestion => "DIGESTION"@,
        ConversionRoute::Pyrolysis => "PYROLYSIS"@,
    }
}

pub fn route_label(route: &ConversionRoute) -> (r: String)
    ensures
        r@ == route_label_spec(*route),
{
    match route {
        ConversionRoute::Combustion => "COMBUSTION".to_owned(),
        ConversionRoute::Digestion => "DIGESTION".to_owned(),
        ConversionRoute::Pyrolysis => "PYROLYSIS".to_owned(),
    }
}

/// Scores a sample, decides the step against the previous residual, and
/// builds the shard row; the new residual comes back for the next step.
pub fn lawn_biofuel_to_shard_row(
    prev_residual: &Residual,
    sample: &LawnFeedstockSample,
    region: &RegionConfig,
    hexstamp: String,
    notes: String,
) -> (r: (CorridorDecision, LawnBiofuelShardRow, Residual))
    requires
        region.wf(),
    ensures
        r.2.wf(),
        r.2.vt == lawn_score_spec(*sample, *region).violation_residual_Vt,
        r.0 == decision_spec(*prev_residual, r.2),
        lawn_coords(r.2.rx@, lawn_values(*sample, *region), *region),
        r.2.weights@ == lawn_weights(),
        r.1.feedstock_id == sample.feedstock_id,
        r.1.region == sample.region,
        r.1.lat == sample.lat && r.1.lon == sample.lon,
        r.1.route@ == route_label_spec(sample.route),
        r.1.moisture_frac == sample.moisture_frac,
        r.1.ash_frac == sample.ash_frac,
        r.1.n_percent_dw == sample.n_percent_dw,
        r.1.contaminant_rtox_01 == sample.contaminant_rtox_01,
        r.1.microplastics_r_01 == sample.microplastics_r_01,
        r.1.heavy_metals_r_01 == sample.heavy_metals_r_01,
        r.1.t90_days == sample.t90_days,
        r.1.bioenergy_kwh_per_kg == sample.bioenergy_kwh_per_kg,
        r.1.co2eq_kg_per_kg == sample.co2eq_kg_per_kg,
        r.1.transport_km == sample.transport_km,
        r.1.rtrans_01 == sample.rtrans_01,
        r.1.rmat_01 == sample.rmat_01,
        r.1.rman_01 == sample.rman_01,
        r.1.ecoimpact_01 == lawn_score_spec(*sample, *region).ecoimpact_01,
        r.1.riskofharm_01 == lawn_score_spec(*sample, *region).riskofharm_01,
        r.1.knowledgefactor_01 == lawn_score_spec(*sample, *region).knowledgefactor_01,
        r.1.violation_residual_Vt == r.2.vt,
        r.1.hexstamp == hexstamp,
        r.1.notes == notes,
{
    let (score, mut residual) = score_lawn_biofuel(sample, region);
    residual.recompute();
    let decision = enforce_safe_step(prev_residual, &residual);
    let route_str = route_label(&sample.route);
    let row = LawnBiofuelShardRow {
        feedstock_id: sample.feedstock_id.clone(),
        region: sample.region.clone(),
        lat: sample.lat,
        lon: sample.lon,
        route: route_str,
        moisture_frac: sample.moisture_frac,
        ash_frac: sample.ash_frac,
        n_percent_dw: sample.n_percent_dw,
        contaminant_rtox_01: sample.contaminant_rtox_01,
        microplastics_r_01: sample.microplastics_r_01,
        heavy_metals_r_01: sample.heavy_metals_r_01,
        t90_days: sample.t90_days,
        bioenergy_kwh_per_kg: sample.bioenergy_kwh_per_kg,
        co2eq_kg_per_kg: sample.co2eq_kg_per_kg,
        transport_km: sample.transport_km,
        rtrans_01: sample.rtrans_01,
        rmat_01: sample.rmat_01,
        rman_01: sample.rman_01,
        ecoimpact_01: score.ecoimpact_01,
        riskofharm_01: score.riskofharm_01,
        knowledgefactor_01: score.knowledgefactor_01,
        violation_residual_Vt: residual.vt,
        hexstamp,
        notes,
    };
    (decision, row, residual)
}

} // verus!
