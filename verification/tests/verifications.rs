use farmtrace::address::{derive_farm_plot_address, derive_verification_address};
use farmtrace::scorer::score;
use farmtrace::verification::{apply_verification, record_satellite_verification_at};
use farmtrace::{
    record_satellite_verification, register_farm_plot, register_harvest_batch, Address,
    CommodityType, DeforestationRisk, ErrorCode, GeoProof, IdentityToken,
    RecordSatelliteVerification, RecordStore, RegisterFarmPlot, RegisterHarvestBatch,
    VerificationType,
};

fn key(fill: u8) -> Address {
    Address::new([fill; 32])
}

fn program() -> Address {
    key(7)
}

fn farmer() -> Address {
    key(1)
}

fn ledger_with_plot() -> (RecordStore, Address) {
    let mut ledger = RecordStore::new();
    let ctx = RegisterFarmPlot {
        program_id: program(),
        farmer: farmer(),
        validator: None,
        token: IdentityToken::NotIssued,
        status_history: false,
        now: 100,
    };
    register_farm_plot(
        &mut ledger,
        &ctx,
        "plot-1".to_string(),
        "Ana".to_string(),
        "Huila".to_string(),
        GeoProof::coordinates("2.5,-75.5".to_string()),
        2.5f64.to_bits(),
        CommodityType::Coffee,
        90,
    )
    .unwrap();
    let plot = derive_farm_plot_address(&program(), "plot-1", &farmer()).unwrap().0;
    (ledger, plot)
}

fn verify_ctx(plot: Address) -> RecordSatelliteVerification {
    RecordSatelliteVerification { program_id: program(), farm_plot: plot, verifier: key(4) }
}

#[test]
fn negative_verification_gives_high_risk_and_zero() {
    assert_eq!(score(DeforestationRisk::Low, 100, false), (DeforestationRisk::High, 0));
}

#[test]
fn positive_verification_after_a_negative_restores_low_risk_and_full_score() {
    let (risk, points) = score(DeforestationRisk::Low, 100, false);
    assert_eq!(score(risk, points, true), (DeforestationRisk::Low, 100));
}

#[test]
fn positive_verification_raises_the_score_to_100() {
    assert_eq!(score(DeforestationRisk::Medium, 50, true), (DeforestationRisk::Low, 100));
    assert_eq!(score(DeforestationRisk::High, 0, true), (DeforestationRisk::Low, 100));
    assert_eq!(score(DeforestationRisk::Low, 99, true), (DeforestationRisk::Low, 100));
    assert_eq!(score(DeforestationRisk::Low, 100, true), (DeforestationRisk::Low, 100));
}

#[test]
fn positive_verification_never_lowers_a_score() {
    assert_eq!(score(DeforestationRisk::Medium, 150, true), (DeforestationRisk::Low, 150));
    assert_eq!(score(DeforestationRisk::Low, 255, true), (DeforestationRisk::Low, 255));
}

#[test]
fn negative_verification_overrides_any_state() {
    for risk in [DeforestationRisk::Low, DeforestationRisk::Medium, DeforestationRisk::High] {
        for points in [0u8, 1, 69, 70, 100, 255] {
            assert_eq!(score(risk, points, false), (DeforestationRisk::High, 0));
        }
    }
}

#[test]
fn scorer_sets_valid_scores_to_zero_or_full() {
    for risk in [DeforestationRisk::Low, DeforestationRisk::Medium, DeforestationRisk::High] {
        for points in 0u8..=100 {
            for outcome in [false, true] {
                let (_, next) = score(risk, points, outcome);
                assert!(next == 0 || next == 100);
            }
        }
    }
}

#[test]
fn verification_is_recorded_and_rescored_the_plot() {
    let (mut ledger, plot) = ledger_with_plot();
    let ctx = verify_ctx(plot);
    let event =
        record_satellite_verification(&mut ledger, &ctx, "abc123".to_string(), false, 200).unwrap();
    assert_eq!(event.farm_plot, plot);
    assert_eq!(event.verification_hash, "abc123");
    assert!(!event.compliant);
    assert_eq!(event.timestamp, 200);

    let (address, bump) = derive_verification_address(&program(), &plot, &key(4), 200).unwrap();
    let record = ledger.find_verification(&address).unwrap();
    assert_eq!(record.farm_plot, plot);
    assert_eq!(record.verifier, key(4));
    assert_eq!(record.verification_timestamp, 200);
    assert_eq!(record.verification_hash, "abc123");
    assert!(!record.no_deforestation);
    assert_eq!(record.verification_type, VerificationType::Satellite);
    assert_eq!(record.bump, bump);

    let after = ledger.find_farm_plot(&plot).unwrap();
    assert_eq!(after.deforestation_risk, DeforestationRisk::High);
    assert_eq!(after.compliance_score, 0);
    assert_eq!(after.last_verified, 200);
    assert_eq!(after.plot_id, "plot-1");
    assert_eq!(after.registration_timestamp, 90);
    assert!(!after.is_compliant());
    assert!(!after.no_deforestation_verified());
    assert_eq!(ledger.len(), 2);
}

#[test]
fn plot_becomes_compliant_again_after_a_positive_verification() {
    let (mut ledger, plot) = ledger_with_plot();
    let ctx = verify_ctx(plot);
    record_satellite_verification(&mut ledger, &ctx, "h1".to_string(), false, 200).unwrap();
    let harvest = RegisterHarvestBatch { program_id: program(), farmer: farmer(), farm_plot: plot };
    let refused = register_harvest_batch(&mut ledger, &harvest, "batch-1".to_string(), 10, 210);
    assert_eq!(refused.unwrap_err(), ErrorCode::NonCompliantFarm);

    record_satellite_verification(&mut ledger, &ctx, "h2".to_string(), true, 300).unwrap();
    let after = ledger.find_farm_plot(&plot).unwrap();
    assert_eq!(after.deforestation_risk, DeforestationRisk::Low);
    assert_eq!(after.compliance_score, 100);
    assert_eq!(after.last_verified, 300);
    assert!(register_harvest_batch(&mut ledger, &harvest, "batch-1".to_string(), 10, 310).is_ok());

    let first = derive_verification_address(&program(), &plot, &key(4), 200).unwrap().0;
    let kept = ledger.find_verification(&first).unwrap();
    assert_eq!(kept.verification_hash, "h1");
    assert!(!kept.no_deforestation);
}

#[test]
fn verification_with_a_repeated_timestamp_is_refused() {
    let (mut ledger, plot) = ledger_with_plot();
    let ctx = verify_ctx(plot);
    record_satellite_verification(&mut ledger, &ctx, "h1".to_string(), true, 200).unwrap();
    let r = record_satellite_verification(&mut ledger, &ctx, "h2".to_string(), false, 200);
    assert_eq!(r.unwrap_err(), ErrorCode::AddressOccupied);
    let after = ledger.find_farm_plot(&plot).unwrap();
    assert_eq!(after.deforestation_risk, DeforestationRisk::Low);
    assert_eq!(after.compliance_score, 100);
    let address = derive_verification_address(&program(), &plot, &key(4), 200).unwrap().0;
    assert_eq!(ledger.find_verification(&address).unwrap().verification_hash, "h1");
    assert_eq!(ledger.len(), 2);
}

#[test]
fn another_verifier_may_use_the_same_timestamp() {
    let (mut ledger, plot) = ledger_with_plot();
    record_satellite_verification(&mut ledger, &verify_ctx(plot), "h1".to_string(), true, 200)
        .unwrap();
    let other = RecordSatelliteVerification { verifier: key(6), ..verify_ctx(plot) };
    let r = record_satellite_verification(&mut ledger, &other, "h2".to_string(), true, 200);
    assert!(r.is_ok());
    assert_eq!(ledger.len(), 3);
}

#[test]
fn verification_hash_of_64_bytes_is_accepted_and_of_65_refused() {
    let (mut ledger, plot) = ledger_with_plot();
    let ctx = verify_ctx(plot);
    assert!(record_satellite_verification(&mut ledger, &ctx, "h".repeat(64), true, 200).is_ok());
    let r = record_satellite_verification(&mut ledger, &ctx, "h".repeat(65), false, 201);
    assert_eq!(r.unwrap_err(), ErrorCode::InvalidHash);
    assert_eq!(ledger.find_farm_plot(&plot).unwrap().compliance_score, 100);
    assert_eq!(ledger.len(), 2);
}

#[test]
fn verification_of_a_missing_plot_is_not_found() {
    let mut ledger = RecordStore::new();
    let ctx = verify_ctx(key(10));
    let r = record_satellite_verification(&mut ledger, &ctx, "h".to_string(), true, 1);
    assert_eq!(r.unwrap_err(), ErrorCode::NotFound);
    assert_eq!(ledger.len(), 0);
}

#[test]
fn verification_without_a_derived_address_is_refused() {
    let (mut ledger, plot) = ledger_with_plot();
    let r = record_satellite_verification_at(
        &mut ledger,
        None,
        &verify_ctx(plot),
        "h".to_string(),
        false,
        1,
    );
    assert_eq!(r.unwrap_err(), ErrorCode::InvalidSeeds);
    assert_eq!(ledger.find_farm_plot(&plot).unwrap().compliance_score, 100);
}

#[test]
fn verification_never_takes_the_place_of_the_plot() {
    let (mut ledger, plot) = ledger_with_plot();
    let r = record_satellite_verification_at(
        &mut ledger,
        Some((plot, 255)),
        &verify_ctx(plot),
        "h".to_string(),
        false,
        1,
    );
    assert_eq!(r.unwrap_err(), ErrorCode::AddressOccupied);
    assert_eq!(ledger.find_farm_plot(&plot).unwrap().compliance_score, 100);
}

#[test]
fn applied_verification_changes_risk_score_and_time_only() {
    let (ledger, plot) = ledger_with_plot();
    let before = ledger.find_farm_plot(&plot).unwrap();
    let after = apply_verification(before, false, 777);
    assert_eq!(after.deforestation_risk, DeforestationRisk::High);
    assert_eq!(after.compliance_score, 0);
    assert_eq!(after.last_verified, 777);
    assert_eq!(after.plot_id, before.plot_id);
    assert_eq!(after.farmer, before.farmer);
    assert_eq!(after.area_hectares, before.area_hectares);
    assert_eq!(after.is_active, before.is_active);
    assert_eq!(after.bump, before.bump);
}
