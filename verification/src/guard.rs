//! The authorization guard. A mutating operation names the principal that
//! may perform it: the owner of the record, or a delegate that was bound to
//! the record when it was created.

use crate::address::Address;
use crate::error::ErrorCode;
use crate::records::{ComplianceGate, FarmPlot, FarmPlotView};
use vstd::prelude::*;

verus! {

/// Whether `caller` is the principal `bound`.
pub open spec fn authorized(caller: Address, bound: Address) -> bool {
    caller == bound
}

/// Whether `caller` is the validator bound to the plot. No caller is, where
/// the plot has no validator.
pub open spec fn is_bound_validator(caller: Address, plot: FarmPlotView) -> bool {
    plot.gate matches ComplianceGate::ValidatorSignOff { validator, .. } && authorized(
        caller,
        validator,
    )
}

/// What the guard returns: nothing where the caller is authorized, else
/// `Unauthorized`.
pub open spec fn verdict(allowed: bool) -> Result<(), ErrorCode> {
    if allowed {
        Ok(())
    } else {
        Err(ErrorCode::Unauthorized)
    }
}

/// Admits `caller` where it is the principal `bound`.
pub fn authorize(caller: &Address, bound: &Address) -> (r: Result<(), ErrorCode>)
    ensures
        r == verdict(authorized(*caller, *bound)),
{
    if *caller == *bound {
        Ok(())
    } else {
        Err(ErrorCode::Unauthorized)
    }
}

/// Admits `caller` where it is the validator that was bound to `plot` at
/// registration.
pub fn authorize_validator(caller: &Address, plot: &FarmPlot) -> (r: Result<(), ErrorCode>)
    ensures
        r == verdict(is_bound_validator(*caller, plot@)),
{
    match plot.gate {
        ComplianceGate::ValidatorSignOff { validator, .. } => authorize(caller, &validator),
        ComplianceGate::ScoreThreshold => Err(ErrorCode::Unauthorized),
    }
}

} // verus!
