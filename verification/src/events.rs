//! The audit events. Each successful operation yields one; the caller hands
//! it to whoever keeps the log.

use crate::address::Address;
use crate::error::ErrorCode;
use crate::records::{GeoProof, GeoProofView, RecordView};
use crate::types::BatchStatus;
use vstd::prelude::*;

verus! {

/// A plot was registered.
#[derive(Debug)]
pub struct FarmPlotRegistered {
    pub plot_id: String,
    pub farmer: Address,
    pub mint: Option<Address>,
    pub geo_proof: GeoProof,
    pub timestamp: i64,
}

/// The event of a registered plot as a mathematical value.
pub struct FarmPlotRegisteredView {
    pub plot_id: Seq<char>,
    pub farmer: Address,
    pub mint: Option<Address>,
    pub geo_proof: GeoProofView,
    pub timestamp: i64,
}

impl View for FarmPlotRegistered {
    type V = FarmPlotRegisteredView;

    open spec fn view(&self) -> FarmPlotRegisteredView {
        FarmPlotRegisteredView {
            plot_id: self.plot_id@,
            farmer: self.farmer,
            mint: self.mint,
            geo_proof: self.geo_proof@,
            timestamp: self.timestamp,
        }
    }
}

/// A plot was signed off by its validator.
#[derive(Clone, Copy, Debug)]
pub struct FarmPlotValidated {
    pub farm_plot: Address,
    pub validator: Address,
    pub timestamp: i64,
}

impl View for FarmPlotValidated {
    type V = FarmPlotValidated;

    open spec fn view(&self) -> FarmPlotValidated {
        *self
    }
}

/// A harvest batch was registered.
#[derive(Debug)]
pub struct HarvestBatchRegistered {
    pub batch_id: String,
    pub farm_plot: Address,
    pub weight_kg: u64,
    pub timestamp: i64,
}

/// The event of a registered batch as a mathematical value.
pub struct HarvestBatchRegisteredView {
    pub batch_id: Seq<char>,
    pub farm_plot: Address,
    pub weight_kg: u64,
    pub timestamp: i64,
}

impl View for HarvestBatchRegistered {
    type V = HarvestBatchRegisteredView;

    open spec fn view(&self) -> HarvestBatchRegisteredView {
        HarvestBatchRegisteredView {
            batch_id: self.batch_id@,
            farm_plot: self.farm_plot,
            weight_kg: self.weight_kg,
            timestamp: self.timestamp,
        }
    }
}

/// The status of a batch was updated.
#[derive(Debug)]
pub struct BatchStatusUpdated {
    pub batch_id: String,
    pub new_status: BatchStatus,
    pub destination: String,
    pub timestamp: i64,
}

/// The event of a status update as a mathematical value.
pub struct BatchStatusUpdatedView {
    pub batch_id: Seq<char>,
    pub new_status: BatchStatus,
    pub destination: Seq<char>,
    pub timestamp: i64,
}

impl View for BatchStatusUpdated {
    type V = BatchStatusUpdatedView;

    open spec fn view(&self) -> BatchStatusUpdatedView {
        BatchStatusUpdatedView {
            batch_id: self.batch_id@,
            new_status: self.new_status,
            destination: self.destination@,
            timestamp: self.timestamp,
        }
    }
}

/// A verification of a plot was recorded.
#[derive(Debug)]
pub struct SatelliteVerificationRecorded {
    pub farm_plot: Address,
    pub verification_hash: String,
    pub compliant: bool,
    pub timestamp: i64,
}

/// The event of a recorded verification as a mathematical value.
pub struct SatelliteVerificationRecordedView {
    pub farm_plot: Address,
    pub verification_hash: Seq<char>,
    pub compliant: bool,
    pub timestamp: i64,
}

impl View for SatelliteVerificationRecorded {
    type V = SatelliteVerificationRecordedView;

    open spec fn view(&self) -> SatelliteVerificationRecordedView {
        SatelliteVerificationRecordedView {
            farm_plot: self.farm_plot,
            verification_hash: self.verification_hash@,
            compliant: self.compliant,
            timestamp: self.timestamp,
        }
    }
}

/// A due-diligence report was compiled.
#[derive(Debug)]
pub struct DDSReportGenerated {
    pub batch_id: String,
    pub compliance_score: u8,
    pub timestamp: i64,
}

/// The event of a compiled report as a mathematical value.
pub struct DDSReportGeneratedView {
    pub batch_id: Seq<char>,
    pub compliance_score: u8,
    pub timestamp: i64,
}

impl View for DDSReportGenerated {
    type V = DDSReportGeneratedView;

    open spec fn view(&self) -> DDSReportGeneratedView {
        DDSReportGeneratedView {
            batch_id: self.batch_id@,
            compliance_score: self.compliance_score,
            timestamp: self.timestamp,
        }
    }
}

/// Whether an operation ended as `expected` says: with the event and the
/// store that it names, or with the error that it names and the store as it
/// was before.
pub open spec fn settled<E: View>(
    r: Result<E, ErrorCode>,
    after: Map<Address, RecordView>,
    before: Map<Address, RecordView>,
    expected: Result<(E::V, Map<Address, RecordView>), ErrorCode>,
) -> bool {
    match expected {
        Ok((event, next)) => r matches Ok(e) && e@ == event && after == next,
        Err(code) => r matches Err(e) && e == code && after == before,
    }
}

} // verus!
