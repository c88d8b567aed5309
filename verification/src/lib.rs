//! Provenance ledger for agricultural supply-chain compliance.
//!
//! The ledger records farm plots, the batches harvested from them and the
//! verifications made of them, each at an address derived from its
//! identifying fields, and compiles due-diligence statements from what it
//! holds. Every operation either applies all of its effects and yields its
//! audit event, or changes nothing and yields an error.

pub mod address;
pub mod batch;
pub mod error;
pub mod events;
pub mod guard;
pub mod integrity;
pub mod laws;
pub mod plot;
pub mod records;
pub mod report;
pub mod schema;
pub mod scorer;
pub mod store;
pub mod token;
pub mod types;
pub mod verification;

pub use address::Address;
pub use batch::{
    register_harvest_batch, update_batch_status, RegisterHarvestBatch, UpdateBatchStatus,
};
pub use error::ErrorCode;
pub use events::{
    BatchStatusUpdated, DDSReportGenerated, FarmPlotRegistered, FarmPlotValidated,
    HarvestBatchRegistered, SatelliteVerificationRecorded,
};
pub use plot::{
    register_farm_plot, validate_farm_plot, IdentityToken, RegisterFarmPlot, ValidateFarmPlot,
};
pub use records::{
    BatchStatusUpdate, ComplianceGate, FarmPlot, GeoProof, HarvestBatch, Record,
    SatelliteVerification,
};
pub use report::{generate_dds_data, DDSReport, GenerateDDSData};
pub use schema::{GateModel, GeoEncoding, SchemaVersion};
pub use store::RecordStore;
pub use types::{BatchStatus, CommodityType, ComplianceStatus, DeforestationRisk, VerificationType};
pub use verification::{record_satellite_verification, RecordSatelliteVerification};
