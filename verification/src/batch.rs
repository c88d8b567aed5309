//! The harvest batch lifecycle: registration against a compliant plot, and
//! status updates with their history.

use crate::address::{
    batch_update_address, derive_batch_update_address, derive_harvest_batch_address,
    harvest_batch_address, text_len, text_seed, Address,
};
use crate::error::ErrorCode;
use crate::events::{
    settled, BatchStatusUpdated, BatchStatusUpdatedView, HarvestBatchRegistered,
    HarvestBatchRegisteredView,
};
use crate::guard::{authorize, authorized};
use crate::records::{
    BatchStatusUpdate, BatchStatusUpdateView, FarmPlot, FarmPlotView, HarvestBatch,
    HarvestBatchView, Record, RecordView,
};
use crate::schema::{MAX_BATCH_ID_LEN, MAX_DESTINATION_LEN};
use crate::store::{farm_plot_at, harvest_batch_at, RecordStore};
use crate::types::{BatchStatus, ComplianceStatus};
use vstd::prelude::*;

verus! {

/// Who registers a batch, under which program, and from which plot.
#[derive(Clone, Copy, Debug)]
pub struct RegisterHarvestBatch {
    pub program_id: Address,
    /// The caller, who owns the plot and will own the batch.
    pub farmer: Address,
    /// The address of the plot that the batch was harvested from.
    pub farm_plot: Address,
}

/// Who updates the status of which batch, and when.
#[derive(Clone, Copy, Debug)]
pub struct UpdateBatchStatus {
    pub program_id: Address,
    pub harvest_batch: Address,
    /// The caller.
    pub authority: Address,
    /// The time of the call.
    pub now: i64,
}

/// The first reason, if any, for which a batch cannot be harvested from the
/// plot: the plot does not pass its gate, the caller does not own it, the
/// identifier has more than 32 bytes, the weight is zero.
pub open spec fn harvest_fault(
    plot: FarmPlotView,
    ctx: RegisterHarvestBatch,
    batch_id: Seq<char>,
    weight_kg: u64,
) -> Option<ErrorCode> {
    if !plot.is_compliant() {
        Some(ErrorCode::NonCompliantFarm)
    } else if !authorized(ctx.farmer, plot.farmer) {
        Some(ErrorCode::Unauthorized)
    } else if text_seed(batch_id).len() > MAX_BATCH_ID_LEN {
        Some(ErrorCode::BatchIdTooLong)
    } else if weight_kg == 0 {
        Some(ErrorCode::InvalidWeight)
    } else {
        None
    }
}

/// The batch as registration writes it: harvested, compliant, with no
/// destination, and with the commodity that the plot has at this moment.
pub open spec fn new_harvest_batch(
    plot: FarmPlotView,
    ctx: RegisterHarvestBatch,
    bump: u8,
    batch_id: Seq<char>,
    weight_kg: u64,
    harvest_timestamp: i64,
) -> HarvestBatchView {
    HarvestBatchView {
        batch_id,
        farm_plot: ctx.farm_plot,
        farmer: ctx.farmer,
        weight_kg,
        harvest_timestamp,
        commodity_type: plot.commodity_type,
        status: BatchStatus::Harvested,
        compliance_status: ComplianceStatus::Compliant,
        destination: Seq::empty(),
        status_history: plot.status_history,
        bump,
    }
}

/// What the registration of a batch yields when the batch's address is
/// `slot`: the event and the store with the new batch, or the error.
pub open spec fn harvest_batch_registration(
    ledger: Map<Address, RecordView>,
    slot: Option<(Address, u8)>,
    ctx: RegisterHarvestBatch,
    batch_id: Seq<char>,
    weight_kg: u64,
    harvest_timestamp: i64,
) -> Result<(HarvestBatchRegisteredView, Map<Address, RecordView>), ErrorCode> {
    match farm_plot_at(ledger, ctx.farm_plot) {
        None => Err(ErrorCode::NotFound),
        Some(plot) => match harvest_fault(plot, ctx, batch_id, weight_kg) {
            Some(code) => Err(code),
            None => match slot {
                None => Err(ErrorCode::InvalidSeeds),
                Some((address, bump)) => if ledger.dom().contains(address) {
                    Err(ErrorCode::AddressOccupied)
                } else {
                    Ok(
                        (
                            HarvestBatchRegisteredView {
                                batch_id,
                                farm_plot: ctx.farm_plot,
                                weight_kg,
                                timestamp: harvest_timestamp,
                            },
                            ledger.insert(
                                address,
                                RecordView::HarvestBatch(
                                    new_harvest_batch(
                                        plot,
                                        ctx,
                                        bump,
                                        batch_id,
                                        weight_kg,
                                        harvest_timestamp,
                                    ),
                                ),
                            ),
                        ),
                    )
                },
            },
        },
    }
}

/// Checks whether a batch can be harvested from the plot.
pub fn check_harvest(plot: &FarmPlot, ctx: &RegisterHarvestBatch, batch_id: &str, weight_kg: u64)
    -> (r: Result<(), ErrorCode>)
    ensures
        r == match harvest_fault(plot@, *ctx, batch_id@, weight_kg) {
            Some(code) => Err::<(), ErrorCode>(code),
            None => Ok(()),
        },
{
    if !plot.is_compliant() {
        return Err(ErrorCode::NonCompliantFarm);
    }
    authorize(&ctx.farmer, &plot.farmer)?;
    if text_len(batch_id) > MAX_BATCH_ID_LEN {
        return Err(ErrorCode::BatchIdTooLong);
    }
    if weight_kg == 0 {
        return Err(ErrorCode::InvalidWeight);
    }
    Ok(())
}

/// The batch as registration writes it.
pub fn build_harvest_batch(
    plot: &FarmPlot,
    ctx: &RegisterHarvestBatch,
    bump: u8,
    batch_id: String,
    weight_kg: u64,
    harvest_timestamp: i64,
) -> (r: HarvestBatch)
    ensures
        r@ == new_harvest_batch(plot@, *ctx, bump, batch_id@, weight_kg, harvest_timestamp),
{
    HarvestBatch {
        batch_id,
        farm_plot: ctx.farm_plot,
        farmer: ctx.farmer,
        weight_kg,
        harvest_timestamp,
        commodity_type: plot.commodity_type,
        status: BatchStatus::Harvested,
        compliance_status: ComplianceStatus::Compliant,
        destination: String::new(),
        status_history: plot.status_history,
        bump,
    }
}

/// Registers a batch at the address `slot`, as derived from the batch's
/// identifier and its farmer.
pub fn register_harvest_batch_at(
    ledger: &mut RecordStore,
    slot: Option<(Address, u8)>,
    ctx: &RegisterHarvestBatch,
    batch_id: String,
    weight_kg: u64,
    harvest_timestamp: i64,
) -> (r: Result<HarvestBatchRegistered, ErrorCode>)
    ensures
        settled(
            r,
            final(ledger)@,
            old(ledger)@,
            harvest_batch_registration(
                old(ledger)@,
                slot,
                *ctx,
                batch_id@,
                weight_kg,
                harvest_timestamp,
            ),
        ),
{
    let plot = ledger.find_farm_plot(&ctx.farm_plot)?;
    check_harvest(plot, ctx, batch_id.as_str(), weight_kg)?;
    let (address, bump) = match slot {
        Some(found) => found,
        None => {
            return Err(ErrorCode::InvalidSeeds);
        },
    };
    let event = HarvestBatchRegistered {
        batch_id: batch_id.clone(),
        farm_plot: ctx.farm_plot,
        weight_kg,
        timestamp: harvest_timestamp,
    };
    let batch = build_harvest_batch(plot, ctx, bump, batch_id, weight_kg, harvest_timestamp);
    ledger.create(address, Record::HarvestBatch(batch))?;
    Ok(event)
}

/// Registers a batch harvested from the plot at `ctx.farm_plot`, which must
/// be active and pass its compliance gate. The batch takes the plot's
/// commodity as it is now and keeps it.
pub fn register_harvest_batch(
    ledger: &mut RecordStore,
    ctx: &RegisterHarvestBatch,
    batch_id: String,
    weight_kg: u64,
    harvest_timestamp: i64,
) -> (r: Result<HarvestBatchRegistered, ErrorCode>)
    ensures
        settled(
            r,
            final(ledger)@,
            old(ledger)@,
            harvest_batch_registration(
                old(ledger)@,
                harvest_batch_address(ctx.program_id, batch_id@, ctx.farmer),
                *ctx,
                batch_id@,
                weight_kg,
                harvest_timestamp,
            ),
        ),
{
    let slot = derive_harvest_batch_address(&ctx.program_id, batch_id.as_str(), &ctx.farmer);
    register_harvest_batch_at(ledger, slot, ctx, batch_id, weight_kg, harvest_timestamp)
}

/// The first reason, if any, for which the batch's status cannot be updated:
/// the caller does not control the batch, or the destination has more than
/// 64 bytes.
pub open spec fn status_fault(
    batch: HarvestBatchView,
    ctx: UpdateBatchStatus,
    destination: Seq<char>,
) -> Option<ErrorCode> {
    if !authorized(ctx.authority, batch.farmer) {
        Some(ErrorCode::Unauthorized)
    } else if text_seed(destination).len() > MAX_DESTINATION_LEN {
        Some(ErrorCode::DestinationTooLong)
    } else {
        None
    }
}

/// The batch with its status and destination overwritten.
pub open spec fn updated_batch(
    batch: HarvestBatchView,
    new_status: BatchStatus,
    destination: Seq<char>,
) -> HarvestBatchView {
    HarvestBatchView { status: new_status, destination, ..batch }
}

/// The history record of one status update.
pub open spec fn new_status_update(
    batch: HarvestBatchView,
    bump: u8,
    new_status: BatchStatus,
    destination: Seq<char>,
    update_timestamp: i64,
) -> BatchStatusUpdateView {
    BatchStatusUpdateView {
        batch_id: batch.batch_id,
        status: new_status,
        destination,
        timestamp: update_timestamp,
        bump,
    }
}

/// Where the history record of an update belongs: at the address derived
/// from the batch's identifier and the update's timestamp, where the batch
/// exists and keeps a history.
pub open spec fn update_slot(
    ledger: Map<Address, RecordView>,
    ctx: UpdateBatchStatus,
    update_timestamp: i64,
) -> Option<(Address, u8)> {
    match harvest_batch_at(ledger, ctx.harvest_batch) {
        Some(batch) => if batch.status_history {
            batch_update_address(ctx.program_id, batch.batch_id, update_timestamp)
        } else {
            None
        },
        None => None,
    }
}

/// What a status update yields when its history record belongs at `slot`:
/// the event and the store with the batch overwritten and, where the batch
/// keeps a history, the history record added; or the error. Any status may
/// follow any status.
pub open spec fn batch_status_update(
    ledger: Map<Address, RecordView>,
    slot: Option<(Address, u8)>,
    ctx: UpdateBatchStatus,
    new_status: BatchStatus,
    destination: Seq<char>,
    update_timestamp: i64,
) -> Result<(BatchStatusUpdatedView, Map<Address, RecordView>), ErrorCode> {
    match harvest_batch_at(ledger, ctx.harvest_batch) {
        None => Err(ErrorCode::NotFound),
        Some(batch) => match status_fault(batch, ctx, destination) {
            Some(code) => Err(code),
            None => {
                let event = BatchStatusUpdatedView {
                    batch_id: batch.batch_id,
                    new_status,
                    destination,
                    timestamp: ctx.now,
                };
                let next = RecordView::HarvestBatch(updated_batch(batch, new_status, destination));
                if !batch.status_history {
                    Ok((event, ledger.insert(ctx.harvest_batch, next)))
                } else {
                    match slot {
                        None => Err(ErrorCode::InvalidSeeds),
                        Some((address, bump)) => if ledger.dom().contains(address) {
                            Err(ErrorCode::AddressOccupied)
                        } else {
                            Ok(
                                (
                                    event,
                                    ledger.insert(
                                        address,
                                        RecordView::StatusUpdate(
                                            new_status_update(
                                                batch,
                                                bump,
                                                new_status,
                                                destination,
                                                update_timestamp,
                                            ),
                                        ),
                                    ).insert(ctx.harvest_batch, next),
                                ),
                            )
                        },
                    }
                }
            },
        },
    }
}

/// Checks whether the caller may give the batch the new destination.
pub fn check_status_update(batch: &HarvestBatch, ctx: &UpdateBatchStatus, destination: &str) -> (r:
    Result<(), ErrorCode>)
    ensures
        r == match status_fault(batch@, *ctx, destination@) {
            Some(code) => Err::<(), ErrorCode>(code),
            None => Ok(()),
        },
{
    authorize(&ctx.authority, &batch.farmer)?;
    if text_len(destination) > MAX_DESTINATION_LEN {
        return Err(ErrorCode::DestinationTooLong);
    }
    Ok(())
}

/// The batch with its status and destination overwritten.
pub fn apply_status(batch: &HarvestBatch, new_status: BatchStatus, destination: String) -> (r:
    HarvestBatch)
    ensures
        r@ == updated_batch(batch@, new_status, destination@),
{
    let mut next = batch.clone();
    next.status = new_status;
    next.destination = destination;
    next
}

/// The history record of one status update.
pub fn build_status_update(
    batch: &HarvestBatch,
    bump: u8,
    new_status: BatchStatus,
    destination: String,
    update_timestamp: i64,
) -> (r: BatchStatusUpdate)
    ensures
        r@ == new_status_update(batch@, bump, new_status, destination@, update_timestamp),
{
    BatchStatusUpdate {
        batch_id: batch.batch_id.clone(),
        status: new_status,
        destination,
        timestamp: update_timestamp,
        bump,
    }
}

/// Updates the status of a batch, with the history record at `slot`.
pub fn update_batch_status_at(
    ledger: &mut RecordStore,
    slot: Option<(Address, u8)>,
    ctx: &UpdateBatchStatus,
    new_status: BatchStatus,
    destination: String,
    update_timestamp: i64,
) -> (r: Result<BatchStatusUpdated, ErrorCode>)
    ensures
        settled(
            r,
            final(ledger)@,
            old(ledger)@,
            batch_status_update(
                old(ledger)@,
                slot,
                *ctx,
                new_status,
                destination@,
                update_timestamp,
            ),
        ),
{
    let batch = ledger.find_harvest_batch(&ctx.harvest_batch)?;
    check_status_update(batch, ctx, destination.as_str())?;
    let event = BatchStatusUpdated {
        batch_id: batch.batch_id.clone(),
        new_status,
        destination: destination.clone(),
        timestamp: ctx.now,
    };
    let next = apply_status(batch, new_status, destination.clone());
    if batch.status_history {
        let (address, bump) = match slot {
            Some(found) => found,
            None => {
                return Err(ErrorCode::InvalidSeeds);
            },
        };
        let update = build_status_update(batch, bump, new_status, destination, update_timestamp);
        ledger.create(address, Record::StatusUpdate(update))?;
    }
    ledger.replace(&ctx.harvest_batch, Record::HarvestBatch(next))?;
    Ok(event)
}

/// Updates the status and the destination of a batch on behalf of the
/// principal that controls it. Where the batch keeps a history, the update
/// also leaves a record of its own, addressed by the batch's identifier and
/// `update_timestamp`.
pub fn update_batch_status(
    ledger: &mut RecordStore,
    ctx: &UpdateBatchStatus,
    new_status: BatchStatus,
    destination: String,
    update_timestamp: i64,
) -> (r: Result<BatchStatusUpdated, ErrorCode>)
    ensures
        settled(
            r,
            final(ledger)@,
            old(ledger)@,
            batch_status_update(
                old(ledger)@,
                update_slot(old(ledger)@, *ctx, update_timestamp),
                *ctx,
                new_status,
                destination@,
                update_timestamp,
            ),
        ),
{
    let slot = match ledger.find_harvest_batch(&ctx.harvest_batch) {
        Ok(batch) => if batch.status_history {
            derive_batch_update_address(&ctx.program_id, batch.batch_id.as_str(), update_timestamp)
        } else {
            None
        },
        Err(_) => None,
    };
    update_batch_status_at(ledger, slot, ctx, new_status, destination, update_timestamp)
}

} // verus!
