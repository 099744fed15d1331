use eco_sys::decision::CorridorDecision;
use eco_sys::hydromower::{hydromower_to_shard_row, score_hydromower_run, HydroMowerRun};
use eco_sys::lawnbiofuel::{lawn_biofuel_to_shard_row, score_lawn_biofuel, ConversionRoute, LawnFeedstockSample};
use eco_sys::region::RegionConfig;
use eco_sys::risk::Residual;

fn region() -> RegionConfig {
    RegionConfig {
        t90target_days: 30_000_000,
        t90hardlimit_days: 90_000_000,
        rtox_safe: 100_000,
        rtox_gold: 400_000,
        rtox_hard: 1_000_000,
    }
}

fn run(noise_dba: u64) -> HydroMowerRun {
    HydroMowerRun {
        nodeid: "mower-1".to_string(),
        region: "phoenix".to_string(),
        lat: 33_448_400,
        lon: -112_074_000,
        cutarea_m2_per_cycle: 250_000_000,
        nozzle_pressure_bar: 5_000_000,
        flow_l_per_min: 12_000_000,
        runtime_min: 30_000_000,
        wateruse_l_per_m2: 5_000_000,
        energy_equiv_kwh: 1_500_000,
        noise_dba,
        spray_drift_m: 1_250_000,
    }
}

fn residual_at(vt: u64) -> Residual {
    Residual { vt, rx: vec![], weights: vec![] }
}

#[test]
fn mower_score_values() {
    let s = score_hydromower_run(&run(80_000_000), &region());
    assert_eq!(s.rwateruse, 500_000);
    assert_eq!(s.rcutquality, 500_000);
    assert_eq!(s.rnoise, 500_000);
    assert_eq!(s.rspraydrift, 500_000);
    assert_eq!(s.rsafety, 200_000);
    assert_eq!(s.ecoimpact_01, 500_000);
    assert_eq!(s.violation_residual_Vt, 272_916);
    assert_eq!(s.riskofharm_01, 272_916);
    assert_eq!(s.knowledgefactor_01, 930_000);
}

#[test]
fn mower_high_pressure_is_unsafe() {
    let mut r = run(80_000_000);
    r.nozzle_pressure_bar = 7_000_000;
    assert_eq!(score_hydromower_run(&r, &region()).rsafety, 800_000);
}

#[test]
fn mower_noise_past_hard_stops() {
    let (d, row, next) = hydromower_to_shard_row(&residual_at(u64::MAX), &run(95_000_000), &region(), "0xab".to_string(), "n".to_string());
    assert_eq!(d, CorridorDecision::Stop);
    assert_eq!(row.rnoise_01, 1_000_000);
    assert_eq!(row.violation_residual_Vt, next.vt);
}

#[test]
fn mower_increase_derates_and_decrease_continues() {
    let (d, row, next) = hydromower_to_shard_row(&residual_at(0), &run(80_000_000), &region(), "0xab".to_string(), "notes".to_string());
    assert_eq!(d, CorridorDecision::Derate);
    assert_eq!(next.vt, 272_916);
    assert_eq!(row.nodeid, "mower-1");
    assert_eq!(row.lon, -112_074_000);
    assert_eq!(row.hexstamp, "0xab");
    assert_eq!(row.notes, "notes");
    let (d2, _, _) = hydromower_to_shard_row(&next, &run(80_000_000), &region(), String::new(), String::new());
    assert_eq!(d2, CorridorDecision::Continue);
}

fn sample() -> LawnFeedstockSample {
    LawnFeedstockSample {
        feedstock_id: "clip-9".to_string(),
        region: "phoenix".to_string(),
        lat: 1,
        lon: 2,
        route: ConversionRoute::Digestion,
        moisture_frac: 600_000,
        ash_frac: 80_000,
        n_percent_dw: 3_000_000,
        t90_days: 60_000_000,
        contaminant_rtox_01: 200_000,
        microplastics_r_01: 50_000,
        heavy_metals_r_01: 50_000,
        bioenergy_kwh_per_kg: 1_500_000,
        co2eq_kg_per_kg: 300_000,
        transport_km: 12_000_000,
        rtrans_01: 200_000,
        rmat_01: 0,
        rman_01: 0,
    }
}

#[test]
fn lawn_score_values() {
    let (s, res) = score_lawn_biofuel(&sample(), &region());
    assert_eq!(s.ecoimpact_01, 680_000);
    assert_eq!(s.violation_residual_Vt, 84_920);
    assert_eq!(s.riskofharm_01, 84_920);
    assert_eq!(res.vt, 84_920);
    assert_eq!(res.rx.len(), 7);
}

#[test]
fn lawn_hard_gate_zeroes_eco_impact() {
    let mut s = sample();
    s.microplastics_r_01 = 1_000_000;
    let (score, _) = score_lawn_biofuel(&s, &region());
    assert_eq!(score.ecoimpact_01, 0);
}

#[test]
fn lawn_row_carries_route_and_decision() {
    let (d, row, next) = lawn_biofuel_to_shard_row(&residual_at(100_000), &sample(), &region(), "0xcd".to_string(), String::new());
    assert_eq!(d, CorridorDecision::Continue);
    assert_eq!(row.route, "DIGESTION");
    assert_eq!(row.feedstock_id, "clip-9");
    assert_eq!(row.violation_residual_Vt, next.vt);
    assert_eq!(row.ecoimpact_01, 680_000);
}

#[test]
fn lawn_route_labels() {
    let mut s = sample();
    s.route = ConversionRoute::Pyrolysis;
    let (_, row, _) = lawn_biofuel_to_shard_row(&residual_at(0), &s, &region(), String::new(), String::new());
    assert_eq!(row.route, "PYROLYSIS");
    s.route = ConversionRoute::Combustion;
    let (_, row, _) = lawn_biofuel_to_shard_row(&residual_at(0), &s, &region(), String::new(), String::new());
    assert_eq!(row.route, "COMBUSTION");
}

#[test]
fn mower_residual_holds_five_coordinates() {
    let (_, _, next) = hydromower_to_shard_row(&residual_at(0), &run(95_000_000), &region(), String::new(), String::new());
    let names: Vec<&str> = next.rx.iter().map(|c| c.varid.as_str()).collect();
    assert_eq!(names, vec!["rcutquality", "rwateruse", "rnoise", "rspraydrift", "rsafety"]);
    assert_eq!(next.weights, vec![250_000, 250_000, 200_000, 150_000, 150_000]);
    assert_eq!(next.rx[2].value, 1_000_000);
    assert_eq!(next.rx[2].hard, 1_000_000);
    assert_eq!(next.rx[4].lyapchannel, 34);
}

#[test]
fn mower_gold_crossing_derates_without_rise() {
    let mut r = run(60_000_000);
    r.wateruse_l_per_m2 = 1_000_000;
    r.spray_drift_m = 300_000;
    r.nozzle_pressure_bar = 7_000_000;
    let (d, _, next) = hydromower_to_shard_row(&residual_at(u64::MAX), &r, &region(), String::new(), String::new());
    assert_eq!(next.rx[4].value, 800_000);
    assert_eq!(d, CorridorDecision::Derate);
}

#[test]
fn mower_quiet_run_continues() {
    let mut r = run(60_000_000);
    r.wateruse_l_per_m2 = 1_000_000;
    r.spray_drift_m = 300_000;
    let (d, _, next) = hydromower_to_shard_row(&residual_at(100_000), &r, &region(), String::new(), String::new());
    // 0.15 * (0.2 - 0.1) / 0.9
    assert_eq!(next.vt, 16_666);
    assert_eq!(d, CorridorDecision::Continue);
}

#[test]
fn lawn_residual_holds_seven_coordinates() {
    let (_, res) = score_lawn_biofuel(&sample(), &region());
    let names: Vec<&str> = res.rx.iter().map(|c| c.varid.as_str()).collect();
    assert_eq!(names, vec!["rt90", "rtox", "rmicro", "rmetals", "rtrans", "rmat", "rman"]);
    assert_eq!(res.weights, vec![200_000, 250_000, 150_000, 100_000, 100_000, 100_000, 100_000]);
    assert_eq!(res.rx[0].value, 500_000);
    assert_eq!((res.rx[1].safe, res.rx[1].gold, res.rx[1].hard), (100_000, 400_000, 1_000_000));
}
