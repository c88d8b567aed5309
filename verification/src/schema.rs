//! Schema revisions. Records were written under revisions that differ in four
//! respects; each record carries its own choice in each of them, and rules
//! are selected by what the record carries, never by what is current.

use crate::error::ErrorCode;
use vstd::prelude::*;

verus! {

/// Most bytes in a plot identifier.
pub const MAX_PLOT_ID_LEN: usize = 32;

/// Most bytes in a batch identifier.
pub const MAX_BATCH_ID_LEN: usize = 32;

/// Most bytes in a raw coordinate string.
pub const MAX_COORDINATES_LEN: usize = 128;

/// Most bytes in the content hash of a geofence polygon.
pub const MAX_POLYGON_HASH_LEN: usize = 64;

/// Most bytes in a destination.
pub const MAX_DESTINATION_LEN: usize = 64;

/// Most bytes in a verification hash.
pub const MAX_VERIFICATION_HASH_LEN: usize = 64;

/// Least score with which a plot under the score gate may be harvested.
pub const COMPLIANCE_THRESHOLD: u8 = 70;

/// The score of full compliance.
pub const FULL_SCORE: u8 = 100;

/// How a plot proves where it lies.
#[derive(Clone, Copy, Debug, PartialEq, Eq, Structural)]
pub enum GeoEncoding {
    /// A raw coordinate string.
    Coordinates,
    /// The content hash of a geofence polygon.
    PolygonHash,
}

/// What lets a plot's output be harvested.
#[derive(Clone, Copy, Debug, PartialEq, Eq, Structural)]
pub enum GateModel {
    /// A compliance score at or above the threshold.
    ScoreThreshold,
    /// The sign-off of the validator bound to the plot.
    ValidatorSignOff,
}

/// The revision under which a record was written.
#[derive(Clone, Copy, Debug, PartialEq, Eq, Structural)]
pub struct SchemaVersion {
    pub geo: GeoEncoding,
    pub gate: GateModel,
    /// Whether registration mints an identity token for the plot.
    pub identity_token: bool,
    /// Whether each status update of a batch leaves a record of its own.
    pub status_history: bool,
}

impl GeoEncoding {
    /// Most bytes in a proof of this encoding.
    pub open spec fn limit(self) -> nat {
        match self {
            GeoEncoding::Coordinates => MAX_COORDINATES_LEN as nat,
            GeoEncoding::PolygonHash => MAX_POLYGON_HASH_LEN as nat,
        }
    }

    /// The error for a proof of this encoding that is too long.
    pub open spec fn violation(self) -> ErrorCode {
        match self {
            GeoEncoding::Coordinates => ErrorCode::InvalidCoordinates,
            GeoEncoding::PolygonHash => ErrorCode::InvalidHash,
        }
    }

    /// Most bytes in a proof of this encoding.
    pub fn max_len(&self) -> (r: usize)
        ensures
            r == self.limit(),
    {
        match self {
            GeoEncoding::Coordinates => MAX_COORDINATES_LEN,
            GeoEncoding::PolygonHash => MAX_POLYGON_HASH_LEN,
        }
    }

    /// The error for a proof of this encoding that is too long.
    pub fn too_long(&self) -> (r: ErrorCode)
        ensures
            r == self.violation(),
    {
        match self {
            GeoEncoding::Coordinates => ErrorCode::InvalidCoordinates,
            GeoEncoding::PolygonHash => ErrorCode::InvalidHash,
        }
    }
}

/// Whether the bits are those of a double-precision number above zero:
/// a positive finite number or positive infinity, not a NaN.
pub open spec fn is_positive_area(bits: u64) -> bool {
    0 < bits <= 0x7ff0_0000_0000_0000
}

/// Whether an area, given by the bits of a double-precision number, is above
/// zero.
pub fn area_is_positive(bits: u64) -> (r: bool)
    ensures
        r == is_positive_area(bits),
{
    0 < bits && bits <= 0x7ff0_0000_0000_0000
}

} // verus!
