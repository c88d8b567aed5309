//! The farm plot lifecycle: registration, and sign-off by the bound
//! validator.

use crate::address::{
    derive_farm_plot_address, farm_plot_address, text_len, text_seed, Address,
};
use crate::error::ErrorCode;
use crate::events::{settled, FarmPlotRegistered, FarmPlotRegisteredView, FarmPlotValidated};
use crate::guard::{authorize_validator, is_bound_validator};
use crate::records::{
    ComplianceGate, FarmPlot, FarmPlotView, GeoProof, GeoProofView, Record, RecordView,
};
use crate::schema::{area_is_positive, is_positive_area, FULL_SCORE, MAX_PLOT_ID_LEN};
use crate::store::{farm_plot_at, RecordStore};
use crate::types::{CommodityType, DeforestationRisk};
use vstd::prelude::*;

verus! {

/// What came of minting the plot's identity token.
#[derive(Clone, Copy, Debug)]
pub enum IdentityToken {
    /// The revision mints none.
    NotIssued,
    /// The token was minted; `mint` refers to it.
    Minted { mint: Address },
    /// The token could not be minted.
    Failed,
}

impl IdentityToken {
    /// The reference to the token, where one was minted.
    pub open spec fn reference(self) -> Option<Address> {
        match self {
            IdentityToken::Minted { mint } => Some(mint),
            _ => None,
        }
    }

    /// The reference to the token, where one was minted.
    pub fn minted(&self) -> (r: Option<Address>)
        ensures
            r == self.reference(),
    {
        match self {
            IdentityToken::Minted { mint } => Some(*mint),
            _ => None,
        }
    }
}

/// Who registers a plot, under which program and revision, and when.
#[derive(Clone, Copy, Debug)]
pub struct RegisterFarmPlot {
    pub program_id: Address,
    /// The caller, who will own the plot.
    pub farmer: Address,
    /// The validator to bind to the plot. Where one is given the plot stands
    /// under the validator gate, else under the score gate.
    pub validator: Option<Address>,
    pub token: IdentityToken,
    /// Whether status updates of the plot's batches are to leave records.
    pub status_history: bool,
    /// The time of the call.
    pub now: i64,
}

/// Who signs off a plot, and when.
#[derive(Clone, Copy, Debug)]
pub struct ValidateFarmPlot {
    pub farm_plot: Address,
    /// The caller.
    pub validator: Address,
    /// The time of the call.
    pub now: i64,
}

/// The first reason, if any, for which a registration is refused before the
/// store is looked at: an identifier of more than 32 bytes, a geolocation
/// proof beyond the limit of its encoding, an area not above zero, a token
/// that could not be minted.
pub open spec fn registration_fault(
    ctx: RegisterFarmPlot,
    plot_id: Seq<char>,
    geo_proof: GeoProofView,
    area_hectares: u64,
) -> Option<ErrorCode> {
    if text_seed(plot_id).len() > MAX_PLOT_ID_LEN {
        Some(ErrorCode::PlotIdTooLong)
    } else if text_seed(geo_proof.value).len() > geo_proof.encoding.limit() {
        Some(geo_proof.encoding.violation())
    } else if !is_positive_area(area_hectares) {
        Some(ErrorCode::InvalidArea)
    } else if ctx.token is Failed {
        Some(ErrorCode::TokenMintFailed)
    } else {
        None
    }
}

/// The plot as registration writes it: low risk, full score, active, not yet
/// signed off, last verified at the time of the call.
pub open spec fn new_farm_plot(
    ctx: RegisterFarmPlot,
    bump: u8,
    plot_id: Seq<char>,
    farmer_name: Seq<char>,
    location: Seq<char>,
    geo_proof: GeoProofView,
    area_hectares: u64,
    commodity_type: CommodityType,
    registration_timestamp: i64,
) -> FarmPlotView {
    FarmPlotView {
        plot_id,
        farmer: ctx.farmer,
        farmer_name,
        location,
        geo_proof,
        area_hectares,
        commodity_type,
        registration_timestamp,
        deforestation_risk: DeforestationRisk::Low,
        compliance_score: FULL_SCORE,
        last_verified: ctx.now,
        is_active: true,
        gate: ComplianceGate::initial(ctx.validator),
        mint: ctx.token.reference(),
        status_history: ctx.status_history,
        bump,
    }
}

/// What a registration yields when the plot's address is `slot`: the event
/// and the store with the new plot, or the error.
pub open spec fn farm_plot_registration(
    ledger: Map<Address, RecordView>,
    slot: Option<(Address, u8)>,
    ctx: RegisterFarmPlot,
    plot_id: Seq<char>,
    farmer_name: Seq<char>,
    location: Seq<char>,
    geo_proof: GeoProofView,
    area_hectares: u64,
    commodity_type: CommodityType,
    registration_timestamp: i64,
) -> Result<(FarmPlotRegisteredView, Map<Address, RecordView>), ErrorCode> {
    match registration_fault(ctx, plot_id, geo_proof, area_hectares) {
        Some(code) => Err(code),
        None => match slot {
            None => Err(ErrorCode::InvalidSeeds),
            Some((address, bump)) => if ledger.dom().contains(address) {
                Err(ErrorCode::AddressOccupied)
            } else {
                Ok(
                    (
                        FarmPlotRegisteredView {
                            plot_id,
                            farmer: ctx.farmer,
                            mint: ctx.token.reference(),
                            geo_proof,
                            timestamp: registration_timestamp,
                        },
                        ledger.insert(
                            address,
                            RecordView::FarmPlot(
                                new_farm_plot(
                                    ctx,
                                    bump,
                                    plot_id,
                                    farmer_name,
                                    location,
                                    geo_proof,
                                    area_hectares,
                                    commodity_type,
                                    registration_timestamp,
                                ),
                            ),
                        ),
                    ),
                )
            },
        },
    }
}

/// Checks what can be checked of a registration before the store is looked
/// at.
pub fn check_registration(
    ctx: &RegisterFarmPlot,
    plot_id: &str,
    geo_proof: &GeoProof,
    area_hectares: u64,
) -> (r: Result<(), ErrorCode>)
    ensures
        r == match registration_fault(*ctx, plot_id@, geo_proof@, area_hectares) {
            Some(code) => Err::<(), ErrorCode>(code),
            None => Ok(()),
        },
{
    if text_len(plot_id) > MAX_PLOT_ID_LEN {
        return Err(ErrorCode::PlotIdTooLong);
    }
    if text_len(geo_proof.value.as_str()) > geo_proof.encoding.max_len() {
        return Err(geo_proof.encoding.too_long());
    }
    if !area_is_positive(area_hectares) {
        return Err(ErrorCode::InvalidArea);
    }
    match ctx.token {
        IdentityToken::Failed => Err(ErrorCode::TokenMintFailed),
        _ => Ok(()),
    }
}

/// The plot as registration writes it.
pub fn build_farm_plot(
    ctx: &RegisterFarmPlot,
    bump: u8,
    plot_id: String,
    farmer_name: String,
    location: String,
    geo_proof: GeoProof,
    area_hectares: u64,
    commodity_type: CommodityType,
    registration_timestamp: i64,
) -> (r: FarmPlot)
    ensures
        r@ == new_farm_plot(
            *ctx,
            bump,
            plot_id@,
            farmer_name@,
            location@,
            geo_proof@,
            area_hectares,
            commodity_type,
            registration_timestamp,
        ),
{
    FarmPlot {
        plot_id,
        farmer: ctx.farmer,
        farmer_name,
        location,
        geo_proof,
        area_hectares,
        commodity_type,
        registration_timestamp,
        deforestation_risk: DeforestationRisk::Low,
        compliance_score: FULL_SCORE,
        last_verified: ctx.now,
        is_active: true,
        gate: match ctx.validator {
            Some(validator) => ComplianceGate::ValidatorSignOff { validator, is_validated: false },
            None => ComplianceGate::ScoreThreshold,
        },
        mint: ctx.token.minted(),
        status_history: ctx.status_history,
        bump,
    }
}

/// Registers a plot at the address `slot`, as derived from the plot's
/// identifier and its farmer.
pub fn register_farm_plot_at(
    ledger: &mut RecordStore,
    slot: Option<(Address, u8)>,
    ctx: &RegisterFarmPlot,
    plot_id: String,
    farmer_name: String,
    location: String,
    geo_proof: GeoProof,
    area_hectares: u64,
    commodity_type: CommodityType,
    registration_timestamp: i64,
) -> (r: Result<FarmPlotRegistered, ErrorCode>)
    ensures
        settled(
            r,
            final(ledger)@,
            old(ledger)@,
            farm_plot_registration(
                old(ledger)@,
                slot,
                *ctx,
                plot_id@,
                farmer_name@,
                location@,
                geo_proof@,
                area_hectares,
                commodity_type,
                registration_timestamp,
            ),
        ),
{
    check_registration(ctx, plot_id.as_str(), &geo_proof, area_hectares)?;
    let (address, bump) = match slot {
        Some(found) => found,
        None => {
            return Err(ErrorCode::InvalidSeeds);
        },
    };
    let event = FarmPlotRegistered {
        plot_id: plot_id.clone(),
        farmer: ctx.farmer,
        mint: ctx.token.minted(),
        geo_proof: geo_proof.clone(),
        timestamp: registration_timestamp,
    };
    let plot = build_farm_plot(
        ctx,
        bump,
        plot_id,
        farmer_name,
        location,
        geo_proof,
        area_hectares,
        commodity_type,
        registration_timestamp,
    );
    ledger.create(address, Record::FarmPlot(plot))?;
    Ok(event)
}

/// Registers a plot for the calling farmer. The plot starts with low risk and
/// the full score, active and not signed off.
pub fn register_farm_plot(
    ledger: &mut RecordStore,
    ctx: &RegisterFarmPlot,
    plot_id: String,
    farmer_name: String,
    location: String,
    geo_proof: GeoProof,
    area_hectares: u64,
    commodity_type: CommodityType,
    registration_timestamp: i64,
) -> (r: Result<FarmPlotRegistered, ErrorCode>)
    ensures
        settled(
            r,
            final(ledger)@,
            old(ledger)@,
            farm_plot_registration(
                old(ledger)@,
                farm_plot_address(ctx.program_id, plot_id@, ctx.farmer),
                *ctx,
                plot_id@,
                farmer_name@,
                location@,
                geo_proof@,
                area_hectares,
                commodity_type,
                registration_timestamp,
            ),
        ),
{
    let slot = derive_farm_plot_address(&ctx.program_id, plot_id.as_str(), &ctx.farmer);
    register_farm_plot_at(
        ledger,
        slot,
        ctx,
        plot_id,
        farmer_name,
        location,
        geo_proof,
        area_hectares,
        commodity_type,
        registration_timestamp,
    )
}

/// The first reason, if any, for which a sign-off is refused: no plot at the
/// address, or a caller who is not the plot's bound validator.
pub open spec fn validation_fault(ledger: Map<Address, RecordView>, ctx: ValidateFarmPlot)
    -> Option<ErrorCode> {
    match farm_plot_at(ledger, ctx.farm_plot) {
        None => Some(ErrorCode::NotFound),
        Some(plot) => if !is_bound_validator(ctx.validator, plot) {
            Some(ErrorCode::Unauthorized)
        } else {
            None
        },
    }
}

/// The plot after its validator signed off: validated, low risk, full score,
/// last verified at the time of the call.
pub open spec fn validated_plot(plot: FarmPlotView, ctx: ValidateFarmPlot) -> FarmPlotView {
    FarmPlotView {
        deforestation_risk: DeforestationRisk::Low,
        compliance_score: FULL_SCORE,
        last_verified: ctx.now,
        gate: ComplianceGate::ValidatorSignOff { validator: ctx.validator, is_validated: true },
        ..plot
    }
}

/// What a sign-off yields: the event and the store with the plot validated,
/// or the error.
pub open spec fn farm_plot_validation(ledger: Map<Address, RecordView>, ctx: ValidateFarmPlot)
    -> Result<(FarmPlotValidated, Map<Address, RecordView>), ErrorCode> {
    match validation_fault(ledger, ctx) {
        Some(code) => Err(code),
        None => Ok(
            (
                FarmPlotValidated {
                    farm_plot: ctx.farm_plot,
                    validator: ctx.validator,
                    timestamp: ctx.now,
                },
                ledger.insert(
                    ctx.farm_plot,
                    RecordView::FarmPlot(
                        validated_plot(farm_plot_at(ledger, ctx.farm_plot)->0, ctx),
                    ),
                ),
            ),
        ),
    }
}

/// The plot after its validator signed off.
pub fn sign_off(plot: &FarmPlot, ctx: &ValidateFarmPlot) -> (r: FarmPlot)
    ensures
        r@ == validated_plot(plot@, *ctx),
{
    let mut next = plot.clone();
    next.deforestation_risk = DeforestationRisk::Low;
    next.compliance_score = FULL_SCORE;
    next.last_verified = ctx.now;
    next.gate = ComplianceGate::ValidatorSignOff { validator: ctx.validator, is_validated: true };
    next
}

/// Signs off the plot on behalf of the calling validator, who must be the
/// one bound to the plot at registration. Signing off a plot that is signed
/// off already sets the same fields again.
pub fn validate_farm_plot(ledger: &mut RecordStore, ctx: &ValidateFarmPlot) -> (r: Result<
    FarmPlotValidated,
    ErrorCode,
>)
    ensures
        settled(r, final(ledger)@, old(ledger)@, farm_plot_validation(old(ledger)@, *ctx)),
{
    let plot = ledger.find_farm_plot(&ctx.farm_plot)?;
    authorize_validator(&ctx.validator, plot)?;
    let next = sign_off(plot, ctx);
    ledger.replace(&ctx.farm_plot, Record::FarmPlot(next))?;
    Ok(FarmPlotValidated { farm_plot: ctx.farm_plot, validator: ctx.validator, timestamp: ctx.now })
}

} // verus!
