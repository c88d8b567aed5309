//! Integrity of the ledger as a whole: what every record in it satisfies,
//! and what no operation ever undoes.

use crate::address::{text_seed, Address};
use crate::batch::{
    batch_status_update, harvest_batch_registration, RegisterHarvestBatch, UpdateBatchStatus,
};
use crate::plot::{
    farm_plot_registration, farm_plot_validation, RegisterFarmPlot, ValidateFarmPlot,
};
use crate::records::{
    BatchStatusUpdateView, FarmPlotView, GeoProofView, HarvestBatchView, RecordView,
    SatelliteVerificationView,
};
use crate::schema::{
    is_positive_area, FULL_SCORE, MAX_BATCH_ID_LEN, MAX_DESTINATION_LEN, MAX_PLOT_ID_LEN,
    MAX_VERIFICATION_HASH_LEN,
};
use crate::store::farm_plot_at;
use crate::types::{BatchStatus, CommodityType};
use crate::verification::{satellite_verification, RecordSatelliteVerification};
use vstd::prelude::*;

verus! {

/// Whether a plot holds what registration admits: an identifier of at most
/// 32 bytes, a geolocation proof within the limit of its encoding, an area
/// above zero, and a score of at most 100.
pub open spec fn plot_well_formed(plot: FarmPlotView) -> bool {
    &&& text_seed(plot.plot_id).len() <= MAX_PLOT_ID_LEN
    &&& text_seed(plot.geo_proof.value).len() <= plot.geo_proof.encoding.limit()
    &&& is_positive_area(plot.area_hectares)
    &&& plot.compliance_score <= FULL_SCORE
}

/// Whether a batch holds what registration and updates admit: an identifier
/// of at most 32 bytes, a weight above zero, a destination of at most 64
/// bytes.
pub open spec fn batch_well_formed(batch: HarvestBatchView) -> bool {
    &&& text_seed(batch.batch_id).len() <= MAX_BATCH_ID_LEN
    &&& batch.weight_kg > 0
    &&& text_seed(batch.destination).len() <= MAX_DESTINATION_LEN
}

/// Whether a verification holds a hash of at most 64 bytes.
pub open spec fn verification_well_formed(verification: SatelliteVerificationView) -> bool {
    text_seed(verification.verification_hash).len() <= MAX_VERIFICATION_HASH_LEN
}

/// Whether a status update holds an identifier of at most 32 bytes and a
/// destination of at most 64.
pub open spec fn update_well_formed(update: BatchStatusUpdateView) -> bool {
    &&& text_seed(update.batch_id).len() <= MAX_BATCH_ID_LEN
    &&& text_seed(update.destination).len() <= MAX_DESTINATION_LEN
}

/// Whether a record is well formed and refers to what the ledger holds: a
/// batch to a plot of the batch's farmer, a verification to a plot.
pub open spec fn record_sound(ledger: Map<Address, RecordView>, record: RecordView) -> bool {
    match record {
        RecordView::FarmPlot(plot) => plot_well_formed(plot),
        RecordView::HarvestBatch(batch) => {
            &&& batch_well_formed(batch)
            &&& farm_plot_at(ledger, batch.farm_plot) matches Some(plot)
            &&& plot.farmer == batch.farmer
        },
        RecordView::Verification(verification) => {
            &&& verification_well_formed(verification)
            &&& farm_plot_at(ledger, verification.farm_plot) is Some
        },
        RecordView::StatusUpdate(update) => update_well_formed(update),
    }
}

/// Whether every record of the ledger is sound.
pub open spec fn sound(ledger: Map<Address, RecordView>) -> bool {
    forall|address: Address| #[trigger]
        ledger.dom().contains(address) ==> record_sound(ledger, ledger[address])
}

/// Whether two records are of the same kind and, where they are plots or
/// batches, of the same identity: identifier, farmer and, for a batch, plot
/// and commodity.
pub open spec fn same_identity(before: RecordView, after: RecordView) -> bool {
    match before {
        RecordView::FarmPlot(plot) => after matches RecordView::FarmPlot(next) && next.plot_id
            == plot.plot_id && next.farmer == plot.farmer && next.registration_timestamp
            == plot.registration_timestamp,
        RecordView::HarvestBatch(batch) => after matches RecordView::HarvestBatch(next)
            && next.batch_id == batch.batch_id && next.farmer == batch.farmer && next.farm_plot
            == batch.farm_plot && next.commodity_type == batch.commodity_type,
        RecordView::Verification(_) => after == before,
        RecordView::StatusUpdate(_) => after == before,
    }
}

/// Whether `after` keeps what `before` held: no record is gone, none has
/// changed its kind or its identity, and every verification and every status
/// update stands as it was written.
pub open spec fn keeps(before: Map<Address, RecordView>, after: Map<Address, RecordView>) -> bool {
    forall|address: Address| #[trigger]
        before.dom().contains(address) ==> after.dom().contains(address) && same_identity(
            before[address],
            after[address],
        )
}

/// Registering a plot leaves a sound ledger sound and keeps what it held.
pub proof fn law_plot_registration_keeps_integrity(
    ledger: Map<Address, RecordView>,
    slot: Option<(Address, u8)>,
    ctx: RegisterFarmPlot,
    plot_id: Seq<char>,
    farmer_name: Seq<char>,
    location: Seq<char>,
    geo_proof: GeoProofView,
    area_hectares: u64,
    commodity_type: CommodityType,
    registration_timestamp: i64,
)
    ensures
        farm_plot_registration(
            ledger,
            slot,
            ctx,
            plot_id,
            farmer_name,
            location,
            geo_proof,
            area_hectares,
            commodity_type,
            registration_timestamp,
        ) matches Ok((_, after)) ==> keeps(ledger, after) && (sound(ledger) ==> sound(after)),
{
    let outcome = farm_plot_registration(
        ledger,
        slot,
        ctx,
        plot_id,
        farmer_name,
        location,
        geo_proof,
        area_hectares,
        commodity_type,
        registration_timestamp,
    );
    if outcome is Ok {
        let after = outcome->Ok_0.1;
        if sound(ledger) {
            assert forall|address: Address| #[trigger] after.dom().contains(address) implies
                record_sound(after, after[address]) by {
                if ledger.dom().contains(address) {
                    assert(record_sound(ledger, ledger[address]));
                }
            }
        }
    }
}

/// Signing off a plot leaves a sound ledger sound and keeps what it held.
pub proof fn law_validation_keeps_integrity(ledger: Map<Address, RecordView>, ctx: ValidateFarmPlot)
    ensures
        farm_plot_validation(ledger, ctx) matches Ok((_, after)) ==> keeps(ledger, after) && (sound(
            ledger,
        ) ==> sound(after)),
{
    let outcome = farm_plot_validation(ledger, ctx);
    if outcome is Ok {
        let after = outcome->Ok_0.1;
        assert(ledger.dom().contains(ctx.farm_plot));
        if sound(ledger) {
            assert(record_sound(ledger, ledger[ctx.farm_plot]));
            assert forall|address: Address| #[trigger] after.dom().contains(address) implies
                record_sound(after, after[address]) by {
                if address != ctx.farm_plot {
                    assert(record_sound(ledger, ledger[address]));
                }
            }
        }
    }
}

/// Registering a batch leaves a sound ledger sound and keeps what it held.
pub proof fn law_batch_registration_keeps_integrity(
    ledger: Map<Address, RecordView>,
    slot: Option<(Address, u8)>,
    ctx: RegisterHarvestBatch,
    batch_id: Seq<char>,
    weight_kg: u64,
    harvest_timestamp: i64,
)
    ensures
        harvest_batch_registration(
            ledger,
            slot,
            ctx,
            batch_id,
            weight_kg,
            harvest_timestamp,
        ) matches Ok((_, after)) ==> keeps(ledger, after) && (sound(ledger) ==> sound(after)),
{
    let outcome = harvest_batch_registration(
        ledger,
        slot,
        ctx,
        batch_id,
        weight_kg,
        harvest_timestamp,
    );
    if outcome is Ok {
        let after = outcome->Ok_0.1;
        assert(ledger.dom().contains(ctx.farm_plot));
        assert(text_seed(Seq::<char>::empty()).len() == 0) by {
            reveal_with_fuel(vstd::utf8::encode_utf8, 1);
        }
        if sound(ledger) {
            assert forall|address: Address| #[trigger] after.dom().contains(address) implies
                record_sound(after, after[address]) by {
                if ledger.dom().contains(address) {
                    assert(record_sound(ledger, ledger[address]));
                }
            }
        }
    }
}

/// Updating the status of a batch leaves a sound ledger sound and keeps what
/// it held.
pub proof fn law_status_update_keeps_integrity(
    ledger: Map<Address, RecordView>,
    slot: Option<(Address, u8)>,
    ctx: UpdateBatchStatus,
    new_status: BatchStatus,
    destination: Seq<char>,
    update_timestamp: i64,
)
    ensures
        batch_status_update(
            ledger,
            slot,
            ctx,
            new_status,
            destination,
            update_timestamp,
        ) matches Ok((_, after)) ==> keeps(ledger, after) && (sound(ledger) ==> sound(after)),
{
    let outcome = batch_status_update(
        ledger,
        slot,
        ctx,
        new_status,
        destination,
        update_timestamp,
    );
    if outcome is Ok {
        let after = outcome->Ok_0.1;
        assert(ledger.dom().contains(ctx.harvest_batch));
        if sound(ledger) {
            assert(record_sound(ledger, ledger[ctx.harvest_batch]));
            assert forall|address: Address| #[trigger] after.dom().contains(address) implies
                record_sound(after, after[address]) by {
                if ledger.dom().contains(address) {
                    assert(record_sound(ledger, ledger[address]));
                }
            }
        }
    }
}

/// Recording a verification leaves a sound ledger sound and keeps what it
/// held.
pub proof fn law_verification_keeps_integrity(
    ledger: Map<Address, RecordView>,
    slot: Option<(Address, u8)>,
    ctx: RecordSatelliteVerification,
    verification_hash: Seq<char>,
    no_deforestation: bool,
    verification_timestamp: i64,
)
    ensures
        satellite_verification(
            ledger,
            slot,
            ctx,
            verification_hash,
            no_deforestation,
            verification_timestamp,
        ) matches Ok((_, after)) ==> keeps(ledger, after) && (sound(ledger) ==> sound(after)),
{
    let outcome = satellite_verification(
        ledger,
        slot,
        ctx,
        verification_hash,
        no_deforestation,
        verification_timestamp,
    );
    if outcome is Ok {
        let after = outcome->Ok_0.1;
        assert(ledger.dom().contains(ctx.farm_plot));
        if sound(ledger) {
            assert(record_sound(ledger, ledger[ctx.farm_plot]));
            assert forall|address: Address| #[trigger] after.dom().contains(address) implies
                record_sound(after, after[address]) by {
                if ledger.dom().contains(address) {
                    assert(record_sound(ledger, ledger[address]));
                }
            }
        }
    }
}

} // verus!
