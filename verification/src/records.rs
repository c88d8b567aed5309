//! The records of the ledger and their mathematical views.

use crate::address::Address;
use crate::schema::{GateModel, GeoEncoding, SchemaVersion, COMPLIANCE_THRESHOLD};
use crate::types::{
    BatchStatus, CommodityType, ComplianceStatus, DeforestationRisk, VerificationType,
};
use vstd::prelude::*;

verus! {

/// Proof of where a plot lies, in one of the two encodings.
#[derive(Debug)]
pub struct GeoProof {
    pub encoding: GeoEncoding,
    pub value: String,
}

/// A geolocation proof as a mathematical value.
pub struct GeoProofView {
    pub encoding: GeoEncoding,
    pub value: Seq<char>,
}

impl View for GeoProof {
    type V = GeoProofView;

    open spec fn view(&self) -> GeoProofView {
        GeoProofView { encoding: self.encoding, value: self.value@ }
    }
}

impl Clone for GeoProof {
    fn clone(&self) -> (r: GeoProof)
        ensures
            r@ == self@,
    {
        GeoProof { encoding: self.encoding, value: self.value.clone() }
    }
}

impl GeoProof {
    /// A raw coordinate string.
    pub fn coordinates(value: String) -> (r: GeoProof)
        ensures
            r@ == (GeoProofView { encoding: GeoEncoding::Coordinates, value: value@ }),
    {
        GeoProof { encoding: GeoEncoding::Coordinates, value }
    }

    /// The content hash of a geofence polygon.
    pub fn polygon_hash(value: String) -> (r: GeoProof)
        ensures
            r@ == (GeoProofView { encoding: GeoEncoding::PolygonHash, value: value@ }),
    {
        GeoProof { encoding: GeoEncoding::PolygonHash, value }
    }
}

/// What lets a plot's output be harvested, with the state that belongs to it.
#[derive(Clone, Copy, Debug)]
pub enum ComplianceGate {
    /// The plot's compliance score decides.
    ScoreThreshold,
    /// The sign-off of `validator`, bound to the plot when it was registered,
    /// decides.
    ValidatorSignOff { validator: Address, is_validated: bool },
}

impl ComplianceGate {
    /// Which of the two models this is.
    pub open spec fn model(self) -> GateModel {
        match self {
            ComplianceGate::ScoreThreshold => GateModel::ScoreThreshold,
            ComplianceGate::ValidatorSignOff { .. } => GateModel::ValidatorSignOff,
        }
    }

    /// What a newly registered plot stands under: the sign-off of `validator`
    /// where one is bound, else the score.
    pub open spec fn initial(validator: Option<Address>) -> ComplianceGate {
        match validator {
            Some(validator) => ComplianceGate::ValidatorSignOff { validator, is_validated: false },
            None => ComplianceGate::ScoreThreshold,
        }
    }

    /// Whether the bound validator has signed off.
    pub open spec fn signed_off(self) -> bool {
        self matches ComplianceGate::ValidatorSignOff { is_validated, .. } && is_validated
    }
}

/// One geolocated production unit.
#[derive(Debug)]
pub struct FarmPlot {
    pub plot_id: String,
    pub farmer: Address,
    pub farmer_name: String,
    pub location: String,
    pub geo_proof: GeoProof,
    /// The area in hectares, as the bits of a double-precision number.
    pub area_hectares: u64,
    pub commodity_type: CommodityType,
    pub registration_timestamp: i64,
    pub deforestation_risk: DeforestationRisk,
    pub compliance_score: u8,
    pub last_verified: i64,
    pub is_active: bool,
    pub gate: ComplianceGate,
    /// The identity token minted for the plot, under revisions that mint one.
    pub mint: Option<Address>,
    /// Whether status updates of the plot's batches leave records.
    pub status_history: bool,
    pub bump: u8,
}

/// A farm plot as a mathematical value.
pub struct FarmPlotView {
    pub plot_id: Seq<char>,
    pub farmer: Address,
    pub farmer_name: Seq<char>,
    pub location: Seq<char>,
    pub geo_proof: GeoProofView,
    pub area_hectares: u64,
    pub commodity_type: CommodityType,
    pub registration_timestamp: i64,
    pub deforestation_risk: DeforestationRisk,
    pub compliance_score: u8,
    pub last_verified: i64,
    pub is_active: bool,
    pub gate: ComplianceGate,
    pub mint: Option<Address>,
    pub status_history: bool,
    pub bump: u8,
}

impl View for FarmPlot {
    type V = FarmPlotView;

    open spec fn view(&self) -> FarmPlotView {
        FarmPlotView {
            plot_id: self.plot_id@,
            farmer: self.farmer,
            farmer_name: self.farmer_name@,
            location: self.location@,
            geo_proof: self.geo_proof@,
            area_hectares: self.area_hectares,
            commodity_type: self.commodity_type,
            registration_timestamp: self.registration_timestamp,
            deforestation_risk: self.deforestation_risk,
            compliance_score: self.compliance_score,
            last_verified: self.last_verified,
            is_active: self.is_active,
            gate: self.gate,
            mint: self.mint,
            status_history: self.status_history,
            bump: self.bump,
        }
    }
}

impl Clone for FarmPlot {
    fn clone(&self) -> (r: FarmPlot)
        ensures
            r@ == self@,
    {
        FarmPlot {
            plot_id: self.plot_id.clone(),
            farmer: self.farmer,
            farmer_name: self.farmer_name.clone(),
            location: self.location.clone(),
            geo_proof: self.geo_proof.clone(),
            area_hectares: self.area_hectares,
            commodity_type: self.commodity_type,
            registration_timestamp: self.registration_timestamp,
            deforestation_risk: self.deforestation_risk,
            compliance_score: self.compliance_score,
            last_verified: self.last_verified,
            is_active: self.is_active,
            gate: self.gate,
            mint: self.mint,
            status_history: self.status_history,
            bump: self.bump,
        }
    }
}

impl FarmPlotView {
    /// The revision under which the plot was registered.
    pub open spec fn schema(self) -> SchemaVersion {
        SchemaVersion {
            geo: self.geo_proof.encoding,
            gate: self.gate.model(),
            identity_token: self.mint is Some,
            status_history: self.status_history,
        }
    }

    /// Whether the plot's output may be harvested: the plot is active, and
    /// under the score gate its score reaches the threshold, under the
    /// validator gate its validator has signed off.
    pub open spec fn is_compliant(self) -> bool {
        self.is_active && match self.gate {
            ComplianceGate::ScoreThreshold => self.compliance_score >= COMPLIANCE_THRESHOLD,
            ComplianceGate::ValidatorSignOff { is_validated, .. } => is_validated,
        }
    }

    /// Whether the plot counts as verified free of deforestation: under the
    /// score gate its risk is not high, under the validator gate its validator
    /// has signed off.
    pub open spec fn no_deforestation_verified(self) -> bool {
        match self.gate {
            ComplianceGate::ScoreThreshold => self.deforestation_risk != DeforestationRisk::High,
            ComplianceGate::ValidatorSignOff { is_validated, .. } => is_validated,
        }
    }
}

impl FarmPlot {
    /// The revision under which the plot was registered.
    pub fn schema(&self) -> (r: SchemaVersion)
        ensures
            r == self@.schema(),
    {
        SchemaVersion {
            geo: self.geo_proof.encoding,
            gate: match self.gate {
                ComplianceGate::ScoreThreshold => GateModel::ScoreThreshold,
                ComplianceGate::ValidatorSignOff { .. } => GateModel::ValidatorSignOff,
            },
            identity_token: self.mint.is_some(),
            status_history: self.status_history,
        }
    }

    /// Whether the plot's output may be harvested.
    pub fn is_compliant(&self) -> (r: bool)
        ensures
            r == self@.is_compliant(),
    {
        self.is_active && match self.gate {
            ComplianceGate::ScoreThreshold => self.compliance_score >= COMPLIANCE_THRESHOLD,
            ComplianceGate::ValidatorSignOff { is_validated, .. } => is_validated,
        }
    }

    /// Whether the plot counts as verified free of deforestation.
    pub fn no_deforestation_verified(&self) -> (r: bool)
        ensures
            r == self@.no_deforestation_verified(),
    {
        match self.gate {
            ComplianceGate::ScoreThreshold => match self.deforestation_risk {
                DeforestationRisk::High => false,
                _ => true,
            },
            ComplianceGate::ValidatorSignOff { is_validated, .. } => is_validated,
        }
    }
}

/// One harvested lot, traceable to a farm plot.
#[derive(Debug)]
pub struct HarvestBatch {
    pub batch_id: String,
    pub farm_plot: Address,
    pub farmer: Address,
    pub weight_kg: u64,
    pub harvest_timestamp: i64,
    pub commodity_type: CommodityType,
    pub status: BatchStatus,
    pub compliance_status: ComplianceStatus,
    pub destination: String,
    /// Whether each status update leaves a record of its own.
    pub status_history: bool,
    pub bump: u8,
}

/// A harvest batch as a mathematical value.
pub struct HarvestBatchView {
    pub batch_id: Seq<char>,
    pub farm_plot: Address,
    pub farmer: Address,
    pub weight_kg: u64,
    pub harvest_timestamp: i64,
    pub commodity_type: CommodityType,
    pub status: BatchStatus,
    pub compliance_status: ComplianceStatus,
    pub destination: Seq<char>,
    pub status_history: bool,
    pub bump: u8,
}

impl View for HarvestBatch {
    type V = HarvestBatchView;

    open spec fn view(&self) -> HarvestBatchView {
        HarvestBatchView {
            batch_id: self.batch_id@,
            farm_plot: self.farm_plot,
            farmer: self.farmer,
            weight_kg: self.weight_kg,
            harvest_timestamp: self.harvest_timestamp,
            commodity_type: self.commodity_type,
            status: self.status,
            compliance_status: self.compliance_status,
            destination: self.destination@,
            status_history: self.status_history,
            bump: self.bump,
        }
    }
}

impl Clone for HarvestBatch {
    fn clone(&self) -> (r: HarvestBatch)
        ensures
            r@ == self@,
    {
        HarvestBatch {
            batch_id: self.batch_id.clone(),
            farm_plot: self.farm_plot,
            farmer: self.farmer,
            weight_kg: self.weight_kg,
            harvest_timestamp: self.harvest_timestamp,
            commodity_type: self.commodity_type,
            status: self.status,
            compliance_status: self.compliance_status,
            destination: self.destination.clone(),
            status_history: self.status_history,
            bump: self.bump,
        }
    }
}

/// One attestation of what was seen on a plot.
#[derive(Debug)]
pub struct SatelliteVerification {
    pub farm_plot: Address,
    pub verifier: Address,
    pub verification_timestamp: i64,
    pub verification_hash: String,
    pub no_deforestation: bool,
    pub verification_type: VerificationType,
    pub bump: u8,
}

/// A verification record as a mathematical value.
pub struct SatelliteVerificationView {
    pub farm_plot: Address,
    pub verifier: Address,
    pub verification_timestamp: i64,
    pub verification_hash: Seq<char>,
    pub no_deforestation: bool,
    pub verification_type: VerificationType,
    pub bump: u8,
}

impl View for SatelliteVerification {
    type V = SatelliteVerificationView;

    open spec fn view(&self) -> SatelliteVerificationView {
        SatelliteVerificationView {
            farm_plot: self.farm_plot,
            verifier: self.verifier,
            verification_timestamp: self.verification_timestamp,
            verification_hash: self.verification_hash@,
            no_deforestation: self.no_deforestation,
            verification_type: self.verification_type,
            bump: self.bump,
        }
    }
}

impl Clone for SatelliteVerification {
    fn clone(&self) -> (r: SatelliteVerification)
        ensures
            r@ == self@,
    {
        SatelliteVerification {
            farm_plot: self.farm_plot,
            verifier: self.verifier,
            verification_timestamp: self.verification_timestamp,
            verification_hash: self.verification_hash.clone(),
            no_deforestation: self.no_deforestation,
            verification_type: self.verification_type,
            bump: self.bump,
        }
    }
}

/// One entry in the status history of a batch.
#[derive(Debug)]
pub struct BatchStatusUpdate {
    pub batch_id: String,
    pub status: BatchStatus,
    pub destination: String,
    pub timestamp: i64,
    pub bump: u8,
}

/// A status update record as a mathematical value.
pub struct BatchStatusUpdateView {
    pub batch_id: Seq<char>,
    pub status: BatchStatus,
    pub destination: Seq<char>,
    pub timestamp: i64,
    pub bump: u8,
}

impl View for BatchStatusUpdate {
    type V = BatchStatusUpdateView;

    open spec fn view(&self) -> BatchStatusUpdateView {
        BatchStatusUpdateView {
            batch_id: self.batch_id@,
            status: self.status,
            destination: self.destination@,
            timestamp: self.timestamp,
            bump: self.bump,
        }
    }
}

impl Clone for BatchStatusUpdate {
    fn clone(&self) -> (r: BatchStatusUpdate)
        ensures
            r@ == self@,
    {
        BatchStatusUpdate {
            batch_id: self.batch_id.clone(),
            status: self.status,
            destination: self.destination.clone(),
            timestamp: self.timestamp,
            bump: self.bump,
        }
    }
}

/// What can stand at an address of the store.
#[derive(Debug)]
pub enum Record {
    FarmPlot(FarmPlot),
    HarvestBatch(HarvestBatch),
    Verification(SatelliteVerification),
    StatusUpdate(BatchStatusUpdate),
}

/// A record as a mathematical value.
pub enum RecordView {
    FarmPlot(FarmPlotView),
    HarvestBatch(HarvestBatchView),
    Verification(SatelliteVerificationView),
    StatusUpdate(BatchStatusUpdateView),
}

impl View for Record {
    type V = RecordView;

    open spec fn view(&self) -> RecordView {
        match self {
            Record::FarmPlot(plot) => RecordView::FarmPlot(plot@),
            Record::HarvestBatch(batch) => RecordView::HarvestBatch(batch@),
            Record::Verification(verification) => RecordView::Verification(verification@),
            Record::StatusUpdate(update) => RecordView::StatusUpdate(update@),
        }
    }
}

impl Clone for Record {
    fn clone(&self) -> (r: Record)
        ensures
            r@ == self@,
    {
        match self {
            Record::FarmPlot(plot) => Record::FarmPlot(plot.clone()),
            Record::HarvestBatch(batch) => Record::HarvestBatch(batch.clone()),
            Record::Verification(verification) => Record::Verification(verification.clone()),
            Record::StatusUpdate(update) => Record::StatusUpdate(update.clone()),
        }
    }
}

} // verus!
