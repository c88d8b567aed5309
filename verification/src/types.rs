//! The enumerations that records and operations share.

use vstd::prelude::*;

verus! {

/// The commodity that a plot produces.
#[derive(Clone, Copy, Debug, PartialEq, Eq, Structural)]
pub enum CommodityType {
    Cocoa,
    Coffee,
    PalmOil,
    Soy,
    Cattle,
    Rubber,
    Timber,
}

/// Coarse summary of what verification has found on a plot.
#[derive(Clone, Copy, Debug, PartialEq, Eq, Structural)]
pub enum DeforestationRisk {
    Low,
    Medium,
    High,
}

/// Where a harvested lot stands on its way through the supply chain.
#[derive(Clone, Copy, Debug, PartialEq, Eq, Structural)]
pub enum BatchStatus {
    Harvested,
    Processing,
    InTransit,
    Delivered,
}

/// Compliance standing of a harvested lot.
#[derive(Clone, Copy, Debug, PartialEq, Eq, Structural)]
pub enum ComplianceStatus {
    Compliant,
    PendingReview,
    NonCompliant,
}

/// How an attestation was obtained.
#[derive(Clone, Copy, Debug, PartialEq, Eq, Structural)]
pub enum VerificationType {
    Satellite,
    Audit,
    Manual,
}

impl CommodityType {
    /// The label under which the commodity is shown, as a sequence of characters.
    pub open spec fn label_text(self) -> Seq<char> {
        match self {
            CommodityType::Cocoa => "Cocoa"@,
            CommodityType::Coffee => "Coffee"@,
            CommodityType::PalmOil => "Palm Oil"@,
            CommodityType::Soy => "Soy"@,
            CommodityType::Cattle => "Cattle"@,
            CommodityType::Rubber => "Rubber"@,
            CommodityType::Timber => "Timber"@,
        }
    }

    /// The label under which the commodity is shown.
    pub fn label(&self) -> (r: &'static str)
        ensures
            r@ == self.label_text(),
    {
        match self {
            CommodityType::Cocoa => "Cocoa",
            CommodityType::Coffee => "Coffee",
            CommodityType::PalmOil => "Palm Oil",
            CommodityType::Soy => "Soy",
            CommodityType::Cattle => "Cattle",
            CommodityType::Rubber => "Rubber",
            CommodityType::Timber => "Timber",
        }
    }
}

} // verus!
