//! The verification subsystem: attestations of what was seen on a plot. Each
//! is written once, at an address of its own, and moves the plot's risk and
//! score.

use crate::address::{
    derive_verification_address, text_len, text_seed, verification_address, Address,
};
use crate::error::ErrorCode;
use crate::events::{settled, SatelliteVerificationRecorded, SatelliteVerificationRecordedView};
use crate::records::{
    FarmPlot, FarmPlotView, Record, RecordView, SatelliteVerification, SatelliteVerificationView,
};
use crate::schema::MAX_VERIFICATION_HASH_LEN;
use crate::scorer::{score, scored};
use crate::store::{farm_plot_at, RecordStore};
use crate::types::VerificationType;
use vstd::prelude::*;

verus! {

/// Who attests what was seen on which plot, under which program.
#[derive(Clone, Copy, Debug)]
pub struct RecordSatelliteVerification {
    pub program_id: Address,
    pub farm_plot: Address,
    /// The caller. Any principal may attest.
    pub verifier: Address,
}

/// The verification record of one attestation.
pub open spec fn new_verification(
    ctx: RecordSatelliteVerification,
    bump: u8,
    verification_hash: Seq<char>,
    no_deforestation: bool,
    verification_timestamp: i64,
) -> SatelliteVerificationView {
    SatelliteVerificationView {
        farm_plot: ctx.farm_plot,
        verifier: ctx.verifier,
        verification_timestamp,
        verification_hash,
        no_deforestation,
        verification_type: VerificationType::Satellite,
        bump,
    }
}

/// The plot after a verification: risk and score as the scorer gives them,
/// last verified at the verification's timestamp.
pub open spec fn verified_plot(
    plot: FarmPlotView,
    no_deforestation: bool,
    verification_timestamp: i64,
) -> FarmPlotView {
    let (risk, score) = scored(plot.deforestation_risk, plot.compliance_score, no_deforestation);
    FarmPlotView {
        deforestation_risk: risk,
        compliance_score: score,
        last_verified: verification_timestamp,
        ..plot
    }
}

/// What a verification yields when its record belongs at `slot`: the event
/// and the store with the record added and the plot rescored, or the error.
pub open spec fn satellite_verification(
    ledger: Map<Address, RecordView>,
    slot: Option<(Address, u8)>,
    ctx: RecordSatelliteVerification,
    verification_hash: Seq<char>,
    no_deforestation: bool,
    verification_timestamp: i64,
) -> Result<(SatelliteVerificationRecordedView, Map<Address, RecordView>), ErrorCode> {
    match farm_plot_at(ledger, ctx.farm_plot) {
        None => Err(ErrorCode::NotFound),
        Some(plot) => if text_seed(verification_hash).len() > MAX_VERIFICATION_HASH_LEN {
            Err(ErrorCode::InvalidHash)
        } else {
            match slot {
                None => Err(ErrorCode::InvalidSeeds),
                Some((address, bump)) => if ledger.dom().contains(address) {
                    Err(ErrorCode::AddressOccupied)
                } else {
                    Ok(
                        (
                            SatelliteVerificationRecordedView {
                                farm_plot: ctx.farm_plot,
                                verification_hash,
                                compliant: no_deforestation,
                                timestamp: verification_timestamp,
                            },
                            ledger.insert(
                                address,
                                RecordView::Verification(
                                    new_verification(
                                        ctx,
                                        bump,
                                        verification_hash,
                                        no_deforestation,
                                        verification_timestamp,
                                    ),
                                ),
                            ).insert(
                                ctx.farm_plot,
                                RecordView::FarmPlot(
                                    verified_plot(plot, no_deforestation, verification_timestamp),
                                ),
                            ),
                        ),
                    )
                },
            }
        },
    }
}

/// Checks the length of a verification hash.
pub fn check_verification_hash(verification_hash: &str) -> (r: Result<(), ErrorCode>)
    ensures
        r == if text_seed(verification_hash@).len() > MAX_VERIFICATION_HASH_LEN {
            Err::<(), ErrorCode>(ErrorCode::InvalidHash)
        } else {
            Ok(())
        },
{
    if text_len(verification_hash) > MAX_VERIFICATION_HASH_LEN {
        Err(ErrorCode::InvalidHash)
    } else {
        Ok(())
    }
}

/// The verification record of one attestation.
pub fn build_verification(
    ctx: &RecordSatelliteVerification,
    bump: u8,
    verification_hash: String,
    no_deforestation: bool,
    verification_timestamp: i64,
) -> (r: SatelliteVerification)
    ensures
        r@ == new_verification(
            *ctx,
            bump,
            verification_hash@,
            no_deforestation,
            verification_timestamp,
        ),
{
    SatelliteVerification {
        farm_plot: ctx.farm_plot,
        verifier: ctx.verifier,
        verification_timestamp,
        verification_hash,
        no_deforestation,
        verification_type: VerificationType::Satellite,
        bump,
    }
}

/// The plot after a verification with the given outcome.
pub fn apply_verification(plot: &FarmPlot, no_deforestation: bool, verification_timestamp: i64)
    -> (r: FarmPlot)
    ensures
        r@ == verified_plot(plot@, no_deforestation, verification_timestamp),
{
    let (risk, points) = score(plot.deforestation_risk, plot.compliance_score, no_deforestation);
    let mut next = plot.clone();
    next.deforestation_risk = risk;
    next.compliance_score = points;
    next.last_verified = verification_timestamp;
    next
}

/// Records a verification of a plot, with its record at `slot`.
pub fn record_satellite_verification_at(
    ledger: &mut RecordStore,
    slot: Option<(Address, u8)>,
    ctx: &RecordSatelliteVerification,
    verification_hash: String,
    no_deforestation: bool,
    verification_timestamp: i64,
) -> (r: Result<SatelliteVerificationRecorded, ErrorCode>)
    ensures
        settled(
            r,
            final(ledger)@,
            old(ledger)@,
            satellite_verification(
                old(ledger)@,
                slot,
                *ctx,
                verification_hash@,
                no_deforestation,
                verification_timestamp,
            ),
        ),
{
    let plot = ledger.find_farm_plot(&ctx.farm_plot)?;
    check_verification_hash(verification_hash.as_str())?;
    let (address, bump) = match slot {
        Some(found) => found,
        None => {
            return Err(ErrorCode::InvalidSeeds);
        },
    };
    let next = apply_verification(plot, no_deforestation, verification_timestamp);
    let event = SatelliteVerificationRecorded {
        farm_plot: ctx.farm_plot,
        verification_hash: verification_hash.clone(),
        compliant: no_deforestation,
        timestamp: verification_timestamp,
    };
    let verification = build_verification(
        ctx,
        bump,
        verification_hash,
        no_deforestation,
        verification_timestamp,
    );
    ledger.create(address, Record::Verification(verification))?;
    ledger.replace(&ctx.farm_plot, Record::FarmPlot(next))?;
    Ok(event)
}

/// Records what a verifier saw on a plot. The record is addressed by the
/// plot, the verifier and the timestamp, and is never changed afterwards;
/// the plot's risk and score follow the outcome.
pub fn record_satellite_verification(
    ledger: &mut RecordStore,
    ctx: &RecordSatelliteVerification,
    verification_hash: String,
    no_deforestation: bool,
    verification_timestamp: i64,
) -> (r: Result<SatelliteVerificationRecorded, ErrorCode>)
    ensures
        settled(
            r,
            final(ledger)@,
            old(ledger)@,
            satellite_verification(
                old(ledger)@,
                verification_address(
                    ctx.program_id,
                    ctx.farm_plot,
                    ctx.verifier,
                    verification_timestamp,
                ),
                *ctx,
                verification_hash@,
                no_deforestation,
                verification_timestamp,
            ),
        ),
{
    let slot = derive_verification_address(
        &ctx.program_id,
        &ctx.farm_plot,
        &ctx.verifier,
        verification_timestamp,
    );
    record_satellite_verification_at(
        ledger,
        slot,
        ctx,
        verification_hash,
        no_deforestation,
        verification_timestamp,
    )
}

} // verus!
