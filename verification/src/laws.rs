//! Laws of the ledger: what holds of every store and every call, stated over
//! the same functions that the operations' contracts use.

use crate::address::{
    batch_update_address, batch_update_seeds, farm_plot_address, farm_plot_seeds,
    lemma_address_by_bytes, text_seed, time_seed, Address,
};
use crate::batch::{
    batch_status_update, harvest_batch_registration, harvest_fault, new_status_update,
    status_fault, update_slot, RegisterHarvestBatch, UpdateBatchStatus,
};
use crate::error::{refused, ErrorCode};
use crate::integrity::{record_sound, sound};
use crate::plot::{farm_plot_registration, new_farm_plot, registration_fault, RegisterFarmPlot};
use crate::records::{FarmPlotView, GeoProofView, HarvestBatchView, RecordView};
use crate::report::{dds_report, joined, reported, DDSReport, GenerateDDSData};
use crate::schema::{GateModel, COMPLIANCE_THRESHOLD, FULL_SCORE, MAX_VERIFICATION_HASH_LEN};
use crate::scorer::scored;
use crate::store::{farm_plot_at, harvest_batch_at, status_update_at, verification_at};
use crate::types::{BatchStatus, CommodityType, DeforestationRisk};
use crate::verification::{
    new_verification, satellite_verification, verified_plot, RecordSatelliteVerification,
};
use vstd::bytes::lemma_auto_spec_u64_to_from_le_bytes;
use vstd::prelude::*;
use vstd::utf8::encode_utf8_decode_utf8;

verus! {

/// Two texts with the same seed bytes are the same text.
pub proof fn law_text_seed_identifies_text(a: Seq<char>, b: Seq<char>)
    ensures
        text_seed(a) == text_seed(b) <==> a == b,
{
    encode_utf8_decode_utf8(a);
    encode_utf8_decode_utf8(b);
}

/// Two timestamps with the same seed bytes are the same timestamp.
pub proof fn law_time_seed_identifies_time(a: i64, b: i64)
    ensures
        time_seed(a) == time_seed(b) <==> a == b,
{
    lemma_auto_spec_u64_to_from_le_bytes();
    assert((a as u64) == (b as u64) ==> a == b) by (bit_vector);
}

/// The seeds of a plot tell its identifier and its farmer: two plots have the
/// same seeds only where both are the same.
pub proof fn law_plot_seeds_identify_plot(
    plot_id: Seq<char>,
    farmer: Address,
    other_id: Seq<char>,
    other_farmer: Address,
)
    ensures
        farm_plot_seeds(plot_id, farmer) == farm_plot_seeds(other_id, other_farmer) <==> plot_id
            == other_id && farmer == other_farmer,
{
    let a = farm_plot_seeds(plot_id, farmer);
    let b = farm_plot_seeds(other_id, other_farmer);
    if a == b {
        assert(a[1] == b[1]);
        assert(a[2] == b[2]);
        law_text_seed_identifies_text(plot_id, other_id);
        lemma_address_by_bytes(farmer, other_farmer);
    }
}

/// The seeds of a status update tell the batch's identifier and the update's
/// timestamp: two updates have the same seeds only where both are the same.
pub proof fn law_update_seeds_identify_update(
    batch_id: Seq<char>,
    update_timestamp: i64,
    other_id: Seq<char>,
    other_timestamp: i64,
)
    ensures
        batch_update_seeds(batch_id, update_timestamp) == batch_update_seeds(
            other_id,
            other_timestamp,
        ) <==> batch_id == other_id && update_timestamp == other_timestamp,
{
    let a = batch_update_seeds(batch_id, update_timestamp);
    let b = batch_update_seeds(other_id, other_timestamp);
    if a == b {
        assert(a[1] == b[1]);
        assert(a[2] == b[2]);
        law_text_seed_identifies_text(batch_id, other_id);
        law_time_seed_identifies_time(update_timestamp, other_timestamp);
    }
}

/// A plot's address depends on the program, the plot's identifier and its
/// farmer, and on nothing else that a registration holds.
pub proof fn law_plot_address_is_per_plot_and_farmer(
    first: RegisterFarmPlot,
    second: RegisterFarmPlot,
    plot_id: Seq<char>,
)
    requires
        first.program_id == second.program_id,
        first.farmer == second.farmer,
    ensures
        farm_plot_address(first.program_id, plot_id, first.farmer) == farm_plot_address(
            second.program_id,
            plot_id,
            second.farmer,
        ),
{
}

/// A plot is registered once. After a registration has succeeded, every
/// further registration under the same program, identifier and farmer is
/// refused, with `AddressOccupied` where nothing else is wrong with it, and
/// the plot that the first one wrote still stands at its address.
pub proof fn law_plot_is_registered_once(
    ledger: Map<Address, RecordView>,
    plot_id: Seq<char>,
    first: RegisterFarmPlot,
    farmer_name: Seq<char>,
    location: Seq<char>,
    geo_proof: GeoProofView,
    area_hectares: u64,
    commodity_type: CommodityType,
    registration_timestamp: i64,
    second: RegisterFarmPlot,
    second_name: Seq<char>,
    second_location: Seq<char>,
    second_proof: GeoProofView,
    second_area: u64,
    second_commodity: CommodityType,
    second_timestamp: i64,
)
    requires
        first.program_id == second.program_id,
        first.farmer == second.farmer,
        farm_plot_registration(
            ledger,
            farm_plot_address(first.program_id, plot_id, first.farmer),
            first,
            plot_id,
            farmer_name,
            location,
            geo_proof,
            area_hectares,
            commodity_type,
            registration_timestamp,
        ) is Ok,
    ensures
        ({
            let slot = farm_plot_address(first.program_id, plot_id, first.farmer);
            let after = farm_plot_registration(
                ledger,
                slot,
                first,
                plot_id,
                farmer_name,
                location,
                geo_proof,
                area_hectares,
                commodity_type,
                registration_timestamp,
            )->Ok_0.1;
            let again = farm_plot_registration(
                after,
                farm_plot_address(second.program_id, plot_id, second.farmer),
                second,
                plot_id,
                second_name,
                second_location,
                second_proof,
                second_area,
                second_commodity,
                second_timestamp,
            );
            &&& slot is Some
            &&& again is Err
            &&& registration_fault(second, plot_id, second_proof, second_area) is None ==> refused(
                again,
                ErrorCode::AddressOccupied,
            )
            &&& farm_plot_at(after, (slot->0).0) == Some(
                new_farm_plot(
                    first,
                    (slot->0).1,
                    plot_id,
                    farmer_name,
                    location,
                    geo_proof,
                    area_hectares,
                    commodity_type,
                    registration_timestamp,
                ),
            )
        }),
{
}

/// No batch is harvested from a plot that does not pass its gate: whatever
/// else the call holds, it is refused with `NonCompliantFarm`. A gate is
/// shut where the plot is inactive; where it stands under the score gate,
/// with a score below the threshold; where it stands under the validator
/// gate, without the sign-off.
pub proof fn law_harvest_needs_open_gate(
    ledger: Map<Address, RecordView>,
    slot: Option<(Address, u8)>,
    ctx: RegisterHarvestBatch,
    batch_id: Seq<char>,
    weight_kg: u64,
    harvest_timestamp: i64,
)
    requires
        farm_plot_at(ledger, ctx.farm_plot) is Some,
    ensures
        ({
            let plot = farm_plot_at(ledger, ctx.farm_plot)->0;
            let outcome = harvest_batch_registration(
                ledger,
                slot,
                ctx,
                batch_id,
                weight_kg,
                harvest_timestamp,
            );
            &&& !plot.is_compliant() ==> refused(outcome, ErrorCode::NonCompliantFarm)
            &&& plot.is_compliant() ==> !refused(outcome, ErrorCode::NonCompliantFarm)
            &&& !plot.is_active ==> !plot.is_compliant()
            &&& plot.gate is ScoreThreshold && plot.compliance_score < COMPLIANCE_THRESHOLD
                ==> !plot.is_compliant()
            &&& plot.gate is ValidatorSignOff && !plot.gate.signed_off() ==> !plot.is_compliant()
        }),
{
}

/// A batch is harvested from a plot that passes its gate, by the plot's
/// farmer, with an identifier of at most 32 bytes and a weight above zero, at
/// a free address: the call succeeds, and the batch stands at its address
/// with the plot's commodity, harvested and compliant.
pub proof fn law_harvest_copies_commodity(
    ledger: Map<Address, RecordView>,
    address: Address,
    bump: u8,
    ctx: RegisterHarvestBatch,
    batch_id: Seq<char>,
    weight_kg: u64,
    harvest_timestamp: i64,
)
    requires
        farm_plot_at(ledger, ctx.farm_plot) is Some,
        harvest_fault(farm_plot_at(ledger, ctx.farm_plot)->0, ctx, batch_id, weight_kg) is None,
        !ledger.dom().contains(address),
    ensures
        ({
            let plot = farm_plot_at(ledger, ctx.farm_plot)->0;
            let outcome = harvest_batch_registration(
                ledger,
                Some((address, bump)),
                ctx,
                batch_id,
                weight_kg,
                harvest_timestamp,
            );
            &&& outcome matches Ok((event, after))
            &&& harvest_batch_at(after, address) matches Some(batch)
            &&& batch.commodity_type == plot.commodity_type
            &&& batch.status == BatchStatus::Harvested
            &&& farm_plot_at(after, ctx.farm_plot) == Some(plot)
        }),
{
}

/// The scorer sets a score to zero or to the full score and to nothing else:
/// a valid score leaves it as one of the two. Deforestation seen gives high
/// risk and zero, whatever stood before; none seen gives low risk and the
/// full score.
pub proof fn law_scorer_sets_zero_or_full(
    current_risk: DeforestationRisk,
    current_score: u8,
    no_deforestation: bool,
)
    requires
        current_score <= FULL_SCORE,
    ensures
        scored(current_risk, current_score, no_deforestation) == if no_deforestation {
            (DeforestationRisk::Low, FULL_SCORE)
        } else {
            (DeforestationRisk::High, 0u8)
        },
{
}

/// The scorer never lowers a score on good news, and a later good
/// verification undoes a bad one.
pub proof fn law_scorer_restores(current_risk: DeforestationRisk, current_score: u8)
    ensures
        scored(current_risk, current_score, true).1 >= current_score,
        ({
            let bad = scored(current_risk, current_score, false);
            scored(bad.0, bad.1, true) == (DeforestationRisk::Low, FULL_SCORE)
        }),
{
}

/// Asking for a report twice of the same store gives the same report, or
/// twice the same error.
pub proof fn law_report_is_repeatable(
    ledger: Map<Address, RecordView>,
    ctx: GenerateDDSData,
    first: Result<DDSReport, ErrorCode>,
    second: Result<DDSReport, ErrorCode>,
)
    requires
        reported(first, dds_report(ledger, ctx)),
        reported(second, dds_report(ledger, ctx)),
    ensures
        first is Ok <==> second is Ok,
        first is Ok ==> first->Ok_0@ == second->Ok_0@,
        first is Err ==> first->Err_0 == second->Err_0,
{
}

/// A batch is reported with its own plot and with no other: where a report
/// comes out, the plot it was asked with is the one that the batch refers
/// to, and the report is the join of these two; where the batch refers to
/// another plot, the call is refused with `NotFound`, whatever stands at the
/// address asked with.
pub proof fn law_report_joins_batch_with_its_plot(
    ledger: Map<Address, RecordView>,
    ctx: GenerateDDSData,
)
    ensures
        dds_report(ledger, ctx) matches Ok(report) ==> {
            &&& harvest_batch_at(ledger, ctx.harvest_batch) matches Some(batch)
            &&& batch.farm_plot == ctx.farm_plot
            &&& farm_plot_at(ledger, batch.farm_plot) matches Some(plot)
            &&& report == joined(batch, plot)
        },
        harvest_batch_at(ledger, ctx.harvest_batch) matches Some(batch) && batch.farm_plot
            != ctx.farm_plot ==> refused(dds_report(ledger, ctx), ErrorCode::NotFound),
        dds_report(ledger, ctx) matches Err(code) ==> code == ErrorCode::NotFound,
{
}

/// In a sound ledger every batch has its report: asked with the plot that the
/// batch refers to, the call succeeds.
pub proof fn law_report_of_own_plot_succeeds(
    ledger: Map<Address, RecordView>,
    harvest_batch: Address,
)
    requires
        sound(ledger),
        harvest_batch_at(ledger, harvest_batch) is Some,
    ensures
        dds_report(
            ledger,
            GenerateDDSData {
                harvest_batch,
                farm_plot: harvest_batch_at(ledger, harvest_batch)->0.farm_plot,
            },
        ) is Ok,
{
    assert(ledger.dom().contains(harvest_batch));
    assert(record_sound(ledger, ledger[harvest_batch]));
}

/// Whether a report calls the plot verified goes by the plot's own gate:
/// under the score gate the plot's risk is not high, under the validator
/// gate the validator has signed off.
pub proof fn law_report_verified_follows_gate(batch: HarvestBatchView, plot: FarmPlotView)
    ensures
        joined(batch, plot).no_deforestation_verified == match plot.schema().gate {
            GateModel::ScoreThreshold => plot.deforestation_risk != DeforestationRisk::High,
            GateModel::ValidatorSignOff => plot.gate.signed_off(),
        },
        joined(batch, plot).compliance_score == plot.compliance_score,
{
}

/// The history of a batch keeps every update. Of two updates of one batch
/// that keeps a history, the first having succeeded with its record at
/// `first_address`: a second one whose record belongs at the same address is
/// refused, with `AddressOccupied` where nothing else is wrong with it; a
/// second one at another free address succeeds where nothing else is wrong
/// with it, and then both records stand, each at its own address.
pub proof fn law_history_keeps_every_update(
    ledger: Map<Address, RecordView>,
    ctx: UpdateBatchStatus,
    first_address: Address,
    first_bump: u8,
    first_status: BatchStatus,
    first_destination: Seq<char>,
    first_timestamp: i64,
    second_address: Address,
    second_bump: u8,
    second_status: BatchStatus,
    second_destination: Seq<char>,
    second_timestamp: i64,
)
    requires
        harvest_batch_at(ledger, ctx.harvest_batch) is Some,
        harvest_batch_at(ledger, ctx.harvest_batch)->0.status_history,
        batch_status_update(
            ledger,
            Some((first_address, first_bump)),
            ctx,
            first_status,
            first_destination,
            first_timestamp,
        ) is Ok,
    ensures
        ({
            let batch = harvest_batch_at(ledger, ctx.harvest_batch)->0;
            let after = batch_status_update(
                ledger,
                Some((first_address, first_bump)),
                ctx,
                first_status,
                first_destination,
                first_timestamp,
            )->Ok_0.1;
            let first_record = new_status_update(
                batch,
                first_bump,
                first_status,
                first_destination,
                first_timestamp,
            );
            let again = batch_status_update(
                after,
                Some((second_address, second_bump)),
                ctx,
                second_status,
                second_destination,
                second_timestamp,
            );
            let sound = status_fault(batch, ctx, second_destination) is None;
            &&& status_update_at(after, first_address) == Some(first_record)
            &&& second_address == first_address ==> again is Err
            &&& second_address == first_address && sound ==> refused(
                again,
                ErrorCode::AddressOccupied,
            )
            &&& second_address != first_address && !after.dom().contains(second_address) && sound
                ==> {
                &&& again matches Ok((event, last))
                &&& status_update_at(last, first_address) == Some(first_record)
                &&& status_update_at(last, second_address) == Some(
                    new_status_update(
                        batch,
                        second_bump,
                        second_status,
                        second_destination,
                        second_timestamp,
                    ),
                )
            }
        }),
{
    let batch = harvest_batch_at(ledger, ctx.harvest_batch)->0;
    assert(ledger.dom().contains(ctx.harvest_batch));
    assert(first_address != ctx.harvest_batch);
}

/// The history of a batch is addressed by timestamp. After an update with
/// the timestamp `first_timestamp` has succeeded, a further update of the
/// batch with the same timestamp is refused, with `AddressOccupied` where
/// nothing else is wrong with it. One with another timestamp has other
/// seeds; where these derive another address, and that address is free, it
/// succeeds where nothing else is wrong with it, and the records of both
/// updates stand where their timestamps place them.
pub proof fn law_history_is_addressed_by_timestamp(
    ledger: Map<Address, RecordView>,
    first: UpdateBatchStatus,
    first_status: BatchStatus,
    first_destination: Seq<char>,
    first_timestamp: i64,
    second: UpdateBatchStatus,
    second_status: BatchStatus,
    second_destination: Seq<char>,
    second_timestamp: i64,
)
    requires
        first.program_id == second.program_id,
        first.harvest_batch == second.harvest_batch,
        harvest_batch_at(ledger, first.harvest_batch) is Some,
        harvest_batch_at(ledger, first.harvest_batch)->0.status_history,
        batch_status_update(
            ledger,
            update_slot(ledger, first, first_timestamp),
            first,
            first_status,
            first_destination,
            first_timestamp,
        ) is Ok,
    ensures
        ({
            let batch = harvest_batch_at(ledger, first.harvest_batch)->0;
            let first_slot = update_slot(ledger, first, first_timestamp);
            let after = batch_status_update(
                ledger,
                first_slot,
                first,
                first_status,
                first_destination,
                first_timestamp,
            )->Ok_0.1;
            let second_slot = update_slot(after, second, second_timestamp);
            let again = batch_status_update(
                after,
                second_slot,
                second,
                second_status,
                second_destination,
                second_timestamp,
            );
            let sound = status_fault(batch, second, second_destination) is None;
            &&& first_slot is Some
            &&& second_slot == batch_update_address(
                first.program_id,
                batch.batch_id,
                second_timestamp,
            )
            &&& first_timestamp != second_timestamp ==> batch_update_seeds(
                batch.batch_id,
                first_timestamp,
            ) != batch_update_seeds(batch.batch_id, second_timestamp)
            &&& first_timestamp == second_timestamp ==> again is Err
            &&& first_timestamp == second_timestamp && sound ==> refused(
                again,
                ErrorCode::AddressOccupied,
            )
            &&& second_slot is Some && (second_slot->0).0 != (first_slot->0).0
                && !after.dom().contains((second_slot->0).0) && sound ==> {
                &&& again matches Ok((event, last))
                &&& status_update_at(last, (first_slot->0).0) == Some(
                    new_status_update(
                        batch,
                        (first_slot->0).1,
                        first_status,
                        first_destination,
                        first_timestamp,
                    ),
                )
                &&& status_update_at(last, (second_slot->0).0) == Some(
                    new_status_update(
                        batch,
                        (second_slot->0).1,
                        second_status,
                        second_destination,
                        second_timestamp,
                    ),
                )
            }
        }),
{
    let batch = harvest_batch_at(ledger, first.harvest_batch)->0;
    let first_slot = update_slot(ledger, first, first_timestamp);
    assert(ledger.dom().contains(first.harvest_batch));
    assert((first_slot->0).0 != first.harvest_batch);
    law_update_seeds_identify_update(
        batch.batch_id,
        first_timestamp,
        batch.batch_id,
        second_timestamp,
    );
}

/// A verification is recorded once. After one has been recorded at an
/// address, a further one whose record belongs at the same address is
/// refused, with `AddressOccupied` where nothing else is wrong with it, and
/// the record of the first stands as it was written.
pub proof fn law_verification_is_recorded_once(
    ledger: Map<Address, RecordView>,
    address: Address,
    bump: u8,
    ctx: RecordSatelliteVerification,
    verification_hash: Seq<char>,
    no_deforestation: bool,
    verification_timestamp: i64,
    second_bump: u8,
    second_hash: Seq<char>,
    second_outcome: bool,
)
    requires
        satellite_verification(
            ledger,
            Some((address, bump)),
            ctx,
            verification_hash,
            no_deforestation,
            verification_timestamp,
        ) is Ok,
    ensures
        ({
            let after = satellite_verification(
                ledger,
                Some((address, bump)),
                ctx,
                verification_hash,
                no_deforestation,
                verification_timestamp,
            )->Ok_0.1;
            let again = satellite_verification(
                after,
                Some((address, second_bump)),
                ctx,
                second_hash,
                second_outcome,
                verification_timestamp,
            );
            &&& verification_at(after, address) == Some(
                new_verification(
                    ctx,
                    bump,
                    verification_hash,
                    no_deforestation,
                    verification_timestamp,
                ),
            )
            &&& farm_plot_at(after, ctx.farm_plot) == Some(
                verified_plot(
                    farm_plot_at(ledger, ctx.farm_plot)->0,
                    no_deforestation,
                    verification_timestamp,
                ),
            )
            &&& again is Err
            &&& text_seed(second_hash).len() <= MAX_VERIFICATION_HASH_LEN ==> refused(
                again,
                ErrorCode::AddressOccupied,
            )
        }),
{
    assert(ledger.dom().contains(ctx.farm_plot));
    assert(address != ctx.farm_plot);
}

} // verus!
