//! The report compiler: the due-diligence statement of a batch, joined from
//! the batch and its plot whenever it is asked for, and never stored.

use crate::address::Address;
use crate::error::ErrorCode;
use crate::events::{DDSReportGenerated, DDSReportGeneratedView};
use crate::records::{
    FarmPlot, FarmPlotView, GeoProof, GeoProofView, HarvestBatch, HarvestBatchView, RecordView,
};
use crate::store::{farm_plot_at, harvest_batch_at, RecordStore};
use crate::types::CommodityType;
use vstd::prelude::*;

verus! {

/// Which batch and which plot a report joins.
#[derive(Clone, Copy, Debug)]
pub struct GenerateDDSData {
    pub harvest_batch: Address,
    pub farm_plot: Address,
}

/// The due-diligence statement of one batch.
#[derive(Debug)]
pub struct DDSReport {
    pub batch_id: String,
    pub plot_id: String,
    pub farmer: Address,
    pub geo_proof: GeoProof,
    pub commodity_type: CommodityType,
    pub harvest_timestamp: i64,
    pub weight_kg: u64,
    pub no_deforestation_verified: bool,
    pub compliance_score: u8,
    pub last_verified: i64,
    pub registration_timestamp: i64,
}

/// A due-diligence statement as a mathematical value.
pub struct DDSReportView {
    pub batch_id: Seq<char>,
    pub plot_id: Seq<char>,
    pub farmer: Address,
    pub geo_proof: GeoProofView,
    pub commodity_type: CommodityType,
    pub harvest_timestamp: i64,
    pub weight_kg: u64,
    pub no_deforestation_verified: bool,
    pub compliance_score: u8,
    pub last_verified: i64,
    pub registration_timestamp: i64,
}

impl View for DDSReport {
    type V = DDSReportView;

    open spec fn view(&self) -> DDSReportView {
        DDSReportView {
            batch_id: self.batch_id@,
            plot_id: self.plot_id@,
            farmer: self.farmer,
            geo_proof: self.geo_proof@,
            commodity_type: self.commodity_type,
            harvest_timestamp: self.harvest_timestamp,
            weight_kg: self.weight_kg,
            no_deforestation_verified: self.no_deforestation_verified,
            compliance_score: self.compliance_score,
            last_verified: self.last_verified,
            registration_timestamp: self.registration_timestamp,
        }
    }
}

impl Clone for DDSReport {
    fn clone(&self) -> (r: DDSReport)
        ensures
            r@ == self@,
    {
        DDSReport {
            batch_id: self.batch_id.clone(),
            plot_id: self.plot_id.clone(),
            farmer: self.farmer,
            geo_proof: self.geo_proof.clone(),
            commodity_type: self.commodity_type,
            harvest_timestamp: self.harvest_timestamp,
            weight_kg: self.weight_kg,
            no_deforestation_verified: self.no_deforestation_verified,
            compliance_score: self.compliance_score,
            last_verified: self.last_verified,
            registration_timestamp: self.registration_timestamp,
        }
    }
}

/// The statement of `batch`, harvested from `plot`. Identity, weight and
/// harvest time come from the batch; everything else, the commodity too,
/// from the plot as it is now. Whether the plot counts as verified goes by
/// the plot's own gate.
pub open spec fn joined(batch: HarvestBatchView, plot: FarmPlotView) -> DDSReportView {
    DDSReportView {
        batch_id: batch.batch_id,
        plot_id: plot.plot_id,
        farmer: plot.farmer,
        geo_proof: plot.geo_proof,
        commodity_type: plot.commodity_type,
        harvest_timestamp: batch.harvest_timestamp,
        weight_kg: batch.weight_kg,
        no_deforestation_verified: plot.no_deforestation_verified(),
        compliance_score: plot.compliance_score,
        last_verified: plot.last_verified,
        registration_timestamp: plot.registration_timestamp,
    }
}

/// Whether the plot that the report is asked with is the one that the batch
/// was harvested from.
pub open spec fn harvested_from(batch: HarvestBatchView, ctx: GenerateDDSData) -> bool {
    batch.farm_plot == ctx.farm_plot
}

/// What asking for a report yields: the statement of the batch with its own
/// plot, or `NotFound` where no batch stands at its address, where the batch
/// was harvested from another plot than the one asked with, or where no plot
/// stands at that address.
pub open spec fn dds_report(ledger: Map<Address, RecordView>, ctx: GenerateDDSData) -> Result<
    DDSReportView,
    ErrorCode,
> {
    match harvest_batch_at(ledger, ctx.harvest_batch) {
        None => Err(ErrorCode::NotFound),
        Some(batch) => if !harvested_from(batch, ctx) {
            Err(ErrorCode::NotFound)
        } else {
            match farm_plot_at(ledger, ctx.farm_plot) {
                None => Err(ErrorCode::NotFound),
                Some(plot) => Ok(joined(batch, plot)),
            }
        },
    }
}

/// Whether `r` is the report that `expected` names, or the error.
pub open spec fn reported(r: Result<DDSReport, ErrorCode>, expected: Result<
    DDSReportView,
    ErrorCode,
>) -> bool {
    match expected {
        Ok(report) => r matches Ok(found) && found@ == report,
        Err(code) => r matches Err(e) && e == code,
    }
}

/// Checks that the plot a report is asked with is the one that the batch was
/// harvested from. A batch is reported with its own plot and with no other.
pub fn check_report_plot(batch: &HarvestBatch, ctx: &GenerateDDSData) -> (r: Result<(), ErrorCode>)
    ensures
        r == if harvested_from(batch@, *ctx) {
            Ok::<(), ErrorCode>(())
        } else {
            Err(ErrorCode::NotFound)
        },
{
    if batch.farm_plot == ctx.farm_plot {
        Ok(())
    } else {
        Err(ErrorCode::NotFound)
    }
}

/// Joins a batch and the plot it was harvested from into the statement of
/// the batch.
pub fn compile_report(batch: &HarvestBatch, plot: &FarmPlot) -> (r: DDSReport)
    ensures
        r@ == joined(batch@, plot@),
{
    DDSReport {
        batch_id: batch.batch_id.clone(),
        plot_id: plot.plot_id.clone(),
        farmer: plot.farmer,
        geo_proof: plot.geo_proof.clone(),
        commodity_type: plot.commodity_type,
        harvest_timestamp: batch.harvest_timestamp,
        weight_kg: batch.weight_kg,
        no_deforestation_verified: plot.no_deforestation_verified(),
        compliance_score: plot.compliance_score,
        last_verified: plot.last_verified,
        registration_timestamp: plot.registration_timestamp,
    }
}

/// Compiles the due-diligence statement of the batch at `ctx.harvest_batch`
/// with the plot at `ctx.farm_plot`, which must be the plot that the batch
/// was harvested from. The store is only read.
pub fn generate_dds_data(ledger: &RecordStore, ctx: &GenerateDDSData) -> (r: Result<
    DDSReport,
    ErrorCode,
>)
    ensures
        reported(r, dds_report(ledger@, *ctx)),
{
    let batch = ledger.find_harvest_batch(&ctx.harvest_batch)?;
    check_report_plot(batch, ctx)?;
    let plot = ledger.find_farm_plot(&ctx.farm_plot)?;
    Ok(compile_report(batch, plot))
}

/// The event that tells of a report compiled at the time `now`.
pub fn report_generated(report: &DDSReport, now: i64) -> (r: DDSReportGenerated)
    ensures
        r@ == (DDSReportGeneratedView {
            batch_id: report@.batch_id,
            compliance_score: report@.compliance_score,
            timestamp: now,
        }),
{
    DDSReportGenerated {
        batch_id: report.batch_id.clone(),
        compliance_score: report.compliance_score,
        timestamp: now,
    }
}

} // verus!
