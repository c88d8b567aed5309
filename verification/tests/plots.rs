use farmtrace::address::derive_farm_plot_address;
use farmtrace::plot::{build_farm_plot, check_registration, register_farm_plot_at};
use farmtrace::{
    register_farm_plot, validate_farm_plot, Address, CommodityType, ComplianceGate,
    DeforestationRisk, ErrorCode, GateModel, GeoEncoding, GeoProof, IdentityToken, RecordStore,
    RegisterFarmPlot, ValidateFarmPlot,
};

fn key(fill: u8) -> Address {
    Address::new([fill; 32])
}

fn scored_ctx() -> RegisterFarmPlot {
    RegisterFarmPlot {
        program_id: key(7),
        farmer: key(1),
        validator: None,
        token: IdentityToken::NotIssued,
        status_history: true,
        now: 1_700_000_000,
    }
}

fn validator_ctx() -> RegisterFarmPlot {
    RegisterFarmPlot { validator: Some(key(5)), ..scored_ctx() }
}

fn register(
    ledger: &mut RecordStore,
    ctx: &RegisterFarmPlot,
    plot_id: &str,
    geo_proof: GeoProof,
    area: f64,
) -> Result<farmtrace::FarmPlotRegistered, ErrorCode> {
    register_farm_plot(
        ledger,
        ctx,
        plot_id.to_string(),
        "Ana".to_string(),
        "Huila".to_string(),
        geo_proof,
        area.to_bits(),
        CommodityType::Coffee,
        1_699_999_000,
    )
}

fn coordinates() -> GeoProof {
    GeoProof::coordinates("2.5,-75.5".to_string())
}

fn address_of(ctx: &RegisterFarmPlot, plot_id: &str) -> Address {
    derive_farm_plot_address(&ctx.program_id, plot_id, &ctx.farmer).unwrap().0
}

#[test]
fn registered_plot_starts_with_low_risk_and_full_score() {
    let mut ledger = RecordStore::new();
    let ctx = scored_ctx();
    let event = register(&mut ledger, &ctx, "plot-1", coordinates(), 2.5).unwrap();
    assert_eq!(event.plot_id, "plot-1");
    assert_eq!(event.farmer, key(1));
    assert_eq!(event.mint, None);
    assert_eq!(event.geo_proof.value, "2.5,-75.5");
    assert_eq!(event.timestamp, 1_699_999_000);

    let (address, bump) = derive_farm_plot_address(&ctx.program_id, "plot-1", &ctx.farmer).unwrap();
    let plot = ledger.find_farm_plot(&address).unwrap();
    assert_eq!(plot.plot_id, "plot-1");
    assert_eq!(plot.farmer, key(1));
    assert_eq!(plot.farmer_name, "Ana");
    assert_eq!(plot.location, "Huila");
    assert_eq!(plot.geo_proof.encoding, GeoEncoding::Coordinates);
    assert_eq!(plot.geo_proof.value, "2.5,-75.5");
    assert_eq!(f64::from_bits(plot.area_hectares), 2.5);
    assert_eq!(plot.commodity_type, CommodityType::Coffee);
    assert_eq!(plot.registration_timestamp, 1_699_999_000);
    assert_eq!(plot.deforestation_risk, DeforestationRisk::Low);
    assert_eq!(plot.compliance_score, 100);
    assert_eq!(plot.last_verified, 1_700_000_000);
    assert!(plot.is_active);
    assert!(matches!(plot.gate, ComplianceGate::ScoreThreshold));
    assert_eq!(plot.mint, None);
    assert!(plot.status_history);
    assert_eq!(plot.bump, bump);
    assert!(plot.is_compliant());
    assert!(plot.no_deforestation_verified());
    assert_eq!(ledger.len(), 1);
}

#[test]
fn plot_with_a_validator_starts_not_validated() {
    let mut ledger = RecordStore::new();
    let ctx = validator_ctx();
    register(&mut ledger, &ctx, "plot-1", coordinates(), 2.5).unwrap();
    let plot = ledger.find_farm_plot(&address_of(&ctx, "plot-1")).unwrap();
    match plot.gate {
        ComplianceGate::ValidatorSignOff { validator, is_validated } => {
            assert_eq!(validator, key(5));
            assert!(!is_validated);
        }
        _ => panic!("the plot should stand under its validator"),
    }
    assert_eq!(plot.compliance_score, 100);
    assert!(!plot.is_compliant());
    assert!(!plot.no_deforestation_verified());
}

#[test]
fn schema_tag_follows_what_the_plot_carries() {
    let mut ledger = RecordStore::new();
    let ctx = scored_ctx();
    register(&mut ledger, &ctx, "plot-1", coordinates(), 2.5).unwrap();
    let schema = ledger.find_farm_plot(&address_of(&ctx, "plot-1")).unwrap().schema();
    assert_eq!(schema.geo, GeoEncoding::Coordinates);
    assert_eq!(schema.gate, GateModel::ScoreThreshold);
    assert!(!schema.identity_token);
    assert!(schema.status_history);

    let ctx = RegisterFarmPlot {
        token: IdentityToken::Minted { mint: key(9) },
        status_history: false,
        ..validator_ctx()
    };
    register(&mut ledger, &ctx, "plot-2", GeoProof::polygon_hash("ab".repeat(32)), 1.0).unwrap();
    let schema = ledger.find_farm_plot(&address_of(&ctx, "plot-2")).unwrap().schema();
    assert_eq!(schema.geo, GeoEncoding::PolygonHash);
    assert_eq!(schema.gate, GateModel::ValidatorSignOff);
    assert!(schema.identity_token);
    assert!(!schema.status_history);
}

#[test]
fn plot_id_of_32_bytes_is_accepted_and_of_33_refused() {
    let mut ledger = RecordStore::new();
    let ctx = scored_ctx();
    assert!(register(&mut ledger, &ctx, &"p".repeat(32), coordinates(), 2.5).is_ok());
    let r = register(&mut ledger, &ctx, &"p".repeat(33), coordinates(), 2.5);
    assert_eq!(r.unwrap_err(), ErrorCode::PlotIdTooLong);
    assert_eq!(ledger.len(), 1);
}

#[test]
fn plot_id_length_is_counted_in_bytes() {
    let mut ledger = RecordStore::new();
    let ctx = scored_ctx();
    let eleven_wide = "日".repeat(11);
    let r = register(&mut ledger, &ctx, &eleven_wide, coordinates(), 2.5);
    assert_eq!(r.unwrap_err(), ErrorCode::PlotIdTooLong);
    assert!(register(&mut ledger, &ctx, &"日".repeat(10), coordinates(), 2.5).is_ok());
}

#[test]
fn coordinates_of_128_bytes_are_accepted_and_of_129_refused() {
    let mut ledger = RecordStore::new();
    let ctx = scored_ctx();
    let ok = register(&mut ledger, &ctx, "plot-1", GeoProof::coordinates("c".repeat(128)), 2.5);
    assert!(ok.is_ok());
    let r = register(&mut ledger, &ctx, "plot-2", GeoProof::coordinates("c".repeat(129)), 2.5);
    assert_eq!(r.unwrap_err(), ErrorCode::InvalidCoordinates);
    assert_eq!(ledger.len(), 1);
}

#[test]
fn polygon_hash_of_64_bytes_is_accepted_and_of_65_refused() {
    let mut ledger = RecordStore::new();
    let ctx = scored_ctx();
    let ok = register(&mut ledger, &ctx, "plot-1", GeoProof::polygon_hash("h".repeat(64)), 2.5);
    assert!(ok.is_ok());
    let r = register(&mut ledger, &ctx, "plot-2", GeoProof::polygon_hash("h".repeat(65)), 2.5);
    assert_eq!(r.unwrap_err(), ErrorCode::InvalidHash);
    assert_eq!(ledger.len(), 1);
}

#[test]
fn area_must_be_above_zero() {
    let mut ledger = RecordStore::new();
    let ctx = scored_ctx();
    for bad in [0.0f64, -0.0, -2.5, f64::NAN, f64::NEG_INFINITY] {
        let r = register(&mut ledger, &ctx, "plot-1", coordinates(), bad);
        assert_eq!(r.unwrap_err(), ErrorCode::InvalidArea);
    }
    assert_eq!(ledger.len(), 0);
    assert!(register(&mut ledger, &ctx, "plot-1", coordinates(), f64::MIN_POSITIVE).is_ok());
    assert!(register(&mut ledger, &ctx, "plot-2", coordinates(), 5e-324).is_ok());
    assert!(register(&mut ledger, &ctx, "plot-3", coordinates(), f64::MAX).is_ok());
    assert!(register(&mut ledger, &ctx, "plot-4", coordinates(), f64::INFINITY).is_ok());
}

#[test]
fn area_check_agrees_with_the_comparison_of_doubles() {
    let ctx = scored_ctx();
    let samples = [
        0.0f64,
        -0.0,
        1.0,
        -1.0,
        2.5,
        1e-300,
        -1e-300,
        1e300,
        f64::NAN,
        -f64::NAN,
        f64::INFINITY,
        f64::NEG_INFINITY,
        f64::MIN_POSITIVE,
        f64::from_bits(0x7ff0_0000_0000_0001),
        f64::from_bits(0x7fef_ffff_ffff_ffff),
        f64::from_bits(0x8000_0000_0000_0001),
        f64::from_bits(u64::MAX),
    ];
    for area in samples {
        let r = check_registration(&ctx, "plot-1", &coordinates(), area.to_bits());
        assert_eq!(r.is_ok(), area > 0.0);
    }
}

#[test]
fn first_fault_in_order_is_reported() {
    let mut ledger = RecordStore::new();
    let ctx = RegisterFarmPlot { token: IdentityToken::Failed, ..scored_ctx() };
    let long_id = "p".repeat(33);
    let long_proof = || GeoProof::coordinates("c".repeat(129));
    let r = register(&mut ledger, &ctx, &long_id, long_proof(), 0.0);
    assert_eq!(r.unwrap_err(), ErrorCode::PlotIdTooLong);
    let r = register(&mut ledger, &ctx, "plot-1", long_proof(), 0.0);
    assert_eq!(r.unwrap_err(), ErrorCode::InvalidCoordinates);
    let r = register(&mut ledger, &ctx, "plot-1", coordinates(), 0.0);
    assert_eq!(r.unwrap_err(), ErrorCode::InvalidArea);
    let r = register(&mut ledger, &ctx, "plot-1", coordinates(), 2.5);
    assert_eq!(r.unwrap_err(), ErrorCode::TokenMintFailed);
    assert_eq!(ledger.len(), 0);
}

#[test]
fn registering_twice_is_refused_and_keeps_the_first_plot() {
    let mut ledger = RecordStore::new();
    let ctx = scored_ctx();
    register(&mut ledger, &ctx, "plot-1", coordinates(), 2.5).unwrap();
    let later = RegisterFarmPlot { now: 1_800_000_000, validator: Some(key(5)), ..ctx };
    let again = register_farm_plot(
        &mut ledger,
        &later,
        "plot-1".to_string(),
        "Bea".to_string(),
        "Cauca".to_string(),
        GeoProof::coordinates("0,0".to_string()),
        9.0f64.to_bits(),
        CommodityType::Cocoa,
        1_799_999_000,
    );
    assert_eq!(again.unwrap_err(), ErrorCode::AddressOccupied);
    assert_eq!(ledger.len(), 1);
    let plot = ledger.find_farm_plot(&address_of(&ctx, "plot-1")).unwrap();
    assert_eq!(plot.farmer_name, "Ana");
    assert_eq!(plot.location, "Huila");
    assert_eq!(plot.commodity_type, CommodityType::Coffee);
    assert_eq!(f64::from_bits(plot.area_hectares), 2.5);
    assert_eq!(plot.last_verified, 1_700_000_000);
    assert!(matches!(plot.gate, ComplianceGate::ScoreThreshold));
}

#[test]
fn same_plot_id_of_another_farmer_is_another_plot() {
    let mut ledger = RecordStore::new();
    let ctx = scored_ctx();
    register(&mut ledger, &ctx, "plot-1", coordinates(), 2.5).unwrap();
    let other = RegisterFarmPlot { farmer: key(2), ..ctx };
    assert!(register(&mut ledger, &other, "plot-1", coordinates(), 4.0).is_ok());
    assert_eq!(ledger.len(), 2);
    assert_eq!(ledger.find_farm_plot(&address_of(&ctx, "plot-1")).unwrap().farmer, key(1));
    assert_eq!(ledger.find_farm_plot(&address_of(&other, "plot-1")).unwrap().farmer, key(2));
}

#[test]
fn minted_token_is_kept_with_the_plot() {
    let mut ledger = RecordStore::new();
    let ctx = RegisterFarmPlot { token: IdentityToken::Minted { mint: key(9) }, ..scored_ctx() };
    let event = register(&mut ledger, &ctx, "plot-1", coordinates(), 2.5).unwrap();
    assert_eq!(event.mint, Some(key(9)));
    let plot = ledger.find_farm_plot(&address_of(&ctx, "plot-1")).unwrap();
    assert_eq!(plot.mint, Some(key(9)));
}

#[test]
fn failed_mint_aborts_the_registration() {
    let mut ledger = RecordStore::new();
    let ctx = RegisterFarmPlot { token: IdentityToken::Failed, ..scored_ctx() };
    let r = register(&mut ledger, &ctx, "plot-1", coordinates(), 2.5);
    assert_eq!(r.unwrap_err(), ErrorCode::TokenMintFailed);
    assert_eq!(ledger.len(), 0);
    assert!(!ledger.contains(&address_of(&ctx, "plot-1")));
}

#[test]
fn registration_without_a_derived_address_is_refused() {
    let mut ledger = RecordStore::new();
    let ctx = scored_ctx();
    let r = register_farm_plot_at(
        &mut ledger,
        None,
        &ctx,
        "plot-1".to_string(),
        "Ana".to_string(),
        "Huila".to_string(),
        coordinates(),
        2.5f64.to_bits(),
        CommodityType::Coffee,
        10,
    );
    assert_eq!(r.unwrap_err(), ErrorCode::InvalidSeeds);
    assert_eq!(ledger.len(), 0);
}

#[test]
fn registration_at_a_given_address_writes_there() {
    let mut ledger = RecordStore::new();
    let ctx = scored_ctx();
    let r = register_farm_plot_at(
        &mut ledger,
        Some((key(40), 251)),
        &ctx,
        "plot-1".to_string(),
        "Ana".to_string(),
        "Huila".to_string(),
        coordinates(),
        2.5f64.to_bits(),
        CommodityType::Soy,
        10,
    );
    assert!(r.is_ok());
    let plot = ledger.find_farm_plot(&key(40)).unwrap();
    assert_eq!(plot.bump, 251);
    assert_eq!(plot.commodity_type, CommodityType::Soy);
}

#[test]
fn built_plot_holds_what_it_was_given() {
    let ctx = validator_ctx();
    let plot = build_farm_plot(
        &ctx,
        250,
        "plot-9".to_string(),
        "Ana".to_string(),
        "Huila".to_string(),
        GeoProof::polygon_hash("abc".to_string()),
        1.5f64.to_bits(),
        CommodityType::Timber,
        77,
    );
    assert_eq!(plot.plot_id, "plot-9");
    assert_eq!(plot.bump, 250);
    assert_eq!(plot.registration_timestamp, 77);
    assert_eq!(plot.last_verified, ctx.now);
    assert_eq!(plot.commodity_type, CommodityType::Timber);
    assert_eq!(plot.geo_proof.encoding, GeoEncoding::PolygonHash);
}

#[test]
fn bound_validator_signs_off_the_plot() {
    let mut ledger = RecordStore::new();
    let ctx = validator_ctx();
    register(&mut ledger, &ctx, "plot-1", coordinates(), 2.5).unwrap();
    let address = address_of(&ctx, "plot-1");
    let event = validate_farm_plot(
        &mut ledger,
        &ValidateFarmPlot { farm_plot: address, validator: key(5), now: 1_700_000_500 },
    )
    .unwrap();
    assert_eq!(event.farm_plot, address);
    assert_eq!(event.validator, key(5));
    assert_eq!(event.timestamp, 1_700_000_500);
    let plot = ledger.find_farm_plot(&address).unwrap();
    assert!(matches!(
        plot.gate,
        ComplianceGate::ValidatorSignOff { is_validated: true, .. }
    ));
    assert_eq!(plot.deforestation_risk, DeforestationRisk::Low);
    assert_eq!(plot.compliance_score, 100);
    assert_eq!(plot.last_verified, 1_700_000_500);
    assert_eq!(plot.plot_id, "plot-1");
    assert!(plot.is_compliant());
    assert!(plot.no_deforestation_verified());
}

#[test]
fn nobody_but_the_bound_validator_signs_off() {
    let mut ledger = RecordStore::new();
    let ctx = validator_ctx();
    register(&mut ledger, &ctx, "plot-1", coordinates(), 2.5).unwrap();
    let address = address_of(&ctx, "plot-1");
    for caller in [key(1), key(6)] {
        let r = validate_farm_plot(
            &mut ledger,
            &ValidateFarmPlot { farm_plot: address, validator: caller, now: 1_700_000_500 },
        );
        assert_eq!(r.unwrap_err(), ErrorCode::Unauthorized);
    }
    let plot = ledger.find_farm_plot(&address).unwrap();
    assert!(matches!(
        plot.gate,
        ComplianceGate::ValidatorSignOff { is_validated: false, .. }
    ));
    assert_eq!(plot.last_verified, 1_700_000_000);
}

#[test]
fn plot_under_the_score_has_no_validator_to_sign_off() {
    let mut ledger = RecordStore::new();
    let ctx = scored_ctx();
    register(&mut ledger, &ctx, "plot-1", coordinates(), 2.5).unwrap();
    let r = validate_farm_plot(
        &mut ledger,
        &ValidateFarmPlot { farm_plot: address_of(&ctx, "plot-1"), validator: key(1), now: 5 },
    );
    assert_eq!(r.unwrap_err(), ErrorCode::Unauthorized);
}

#[test]
fn sign_off_of_a_missing_plot_is_not_found() {
    let mut ledger = RecordStore::new();
    let r = validate_farm_plot(
        &mut ledger,
        &ValidateFarmPlot { farm_plot: key(40), validator: key(5), now: 5 },
    );
    assert_eq!(r.unwrap_err(), ErrorCode::NotFound);
}

#[test]
fn repeated_sign_off_sets_the_same_fields_again() {
    let mut ledger = RecordStore::new();
    let ctx = validator_ctx();
    register(&mut ledger, &ctx, "plot-1", coordinates(), 2.5).unwrap();
    let address = address_of(&ctx, "plot-1");
    let first = ValidateFarmPlot { farm_plot: address, validator: key(5), now: 100 };
    let second = ValidateFarmPlot { now: 200, ..first };
    assert!(validate_farm_plot(&mut ledger, &first).is_ok());
    assert!(validate_farm_plot(&mut ledger, &second).is_ok());
    let plot = ledger.find_farm_plot(&address).unwrap();
    assert!(matches!(
        plot.gate,
        ComplianceGate::ValidatorSignOff { is_validated: true, .. }
    ));
    assert_eq!(plot.compliance_score, 100);
    assert_eq!(plot.last_verified, 200);
    assert_eq!(ledger.len(), 1);
}
