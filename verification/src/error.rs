//! The ways in which an operation can be refused.

use vstd::prelude::*;

verus! {

/// Why an operation was refused. A refused operation changes nothing.
#[derive(Clone, Copy, Debug, PartialEq, Eq, Structural)]
pub enum ErrorCode {
    /// The referenced plot is inactive or does not pass its compliance gate.
    NonCompliantFarm,
    /// The plot identifier is longer than 32 bytes.
    PlotIdTooLong,
    /// The batch identifier is longer than 32 bytes.
    BatchIdTooLong,
    /// The coordinate string is longer than 128 bytes.
    InvalidCoordinates,
    /// The area is not a positive number.
    InvalidArea,
    /// The weight is zero.
    InvalidWeight,
    /// The destination is longer than 64 bytes.
    DestinationTooLong,
    /// A hash is longer than 64 bytes.
    InvalidHash,
    /// A record already stands at the address where one was to be created.
    AddressOccupied,
    /// No record of the expected kind stands at a referenced address.
    NotFound,
    /// The caller is not the principal bound to the record.
    Unauthorized,
    /// The identifying fields derive no address.
    InvalidSeeds,
    /// The identity token could not be minted.
    TokenMintFailed,
}

/// Whether `outcome` is a refusal for the reason `code`.
pub open spec fn refused<T>(outcome: Result<T, ErrorCode>, code: ErrorCode) -> bool {
    outcome matches Err(e) && e == code
}

impl ErrorCode {
    /// Whether the error reports a field that is too long or out of range.
    pub open spec fn is_validation_error(self) -> bool {
        match self {
            ErrorCode::PlotIdTooLong
            | ErrorCode::BatchIdTooLong
            | ErrorCode::InvalidCoordinates
            | ErrorCode::InvalidArea
            | ErrorCode::InvalidWeight
            | ErrorCode::DestinationTooLong
            | ErrorCode::InvalidHash => true,
            _ => false,
        }
    }

    /// Whether the error reports a field that is too long or out of range.
    pub fn is_validation(&self) -> (r: bool)
        ensures
            r == self.is_validation_error(),
    {
        match self {
            ErrorCode::PlotIdTooLong
            | ErrorCode::BatchIdTooLong
            | ErrorCode::InvalidCoordinates
            | ErrorCode::InvalidArea
            | ErrorCode::InvalidWeight
            | ErrorCode::DestinationTooLong
            | ErrorCode::InvalidHash => true,
            _ => false,
        }
    }

    /// The text of the error's message.
    pub open spec fn message_text(self) -> Seq<char> {
        match self {
            ErrorCode::NonCompliantFarm => "Farm is not compliant with EUDR requirements"@,
            ErrorCode::PlotIdTooLong => "Plot ID is too long (max 32 characters)"@,
            ErrorCode::BatchIdTooLong => "Batch ID is too long (max 32 characters)"@,
            ErrorCode::InvalidCoordinates => "Invalid coordinates format"@,
            ErrorCode::InvalidArea => "Invalid area (must be > 0)"@,
            ErrorCode::InvalidWeight => "Invalid weight (must be > 0)"@,
            ErrorCode::DestinationTooLong => "Destination string is too long"@,
            ErrorCode::InvalidHash => "Invalid verification hash"@,
            ErrorCode::AddressOccupied => "A record already exists at this address"@,
            ErrorCode::NotFound => "No such record"@,
            ErrorCode::Unauthorized => "Caller is not authorized for this record"@,
            ErrorCode::InvalidSeeds => "Identifiers derive no address"@,
            ErrorCode::TokenMintFailed => "Identity token could not be minted"@,
        }
    }

    /// A message for the error, fit to show to a person.
    pub fn message(&self) -> (r: &'static str)
        ensures
            r@ == self.message_text(),
    {
        match self {
            ErrorCode::NonCompliantFarm => "Farm is not compliant with EUDR requirements",
            ErrorCode::PlotIdTooLong => "Plot ID is too long (max 32 characters)",
            ErrorCode::BatchIdTooLong => "Batch ID is too long (max 32 characters)",
            ErrorCode::InvalidCoordinates => "Invalid coordinates format",
            ErrorCode::InvalidArea => "Invalid area (must be > 0)",
            ErrorCode::InvalidWeight => "Invalid weight (must be > 0)",
            ErrorCode::DestinationTooLong => "Destination string is too long",
            ErrorCode::InvalidHash => "Invalid verification hash",
            ErrorCode::AddressOccupied => "A record already exists at this address",
            ErrorCode::NotFound => "No such record",
            ErrorCode::Unauthorized => "Caller is not authorized for this record",
            ErrorCode::InvalidSeeds => "Identifiers derive no address",
            ErrorCode::TokenMintFailed => "Identity token could not be minted",
        }
    }
}

} // verus!
