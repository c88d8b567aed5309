//! What the minting collaborator is asked for: one identity token per plot,
//! one of one, with the metadata that names the plot.

use crate::address::{base58, Address};
use crate::types::CommodityType;
use vstd::prelude::*;
use vstd::string::StringExecFns;

verus! {

/// Symbol of every identity token.
pub const TOKEN_SYMBOL: &'static str = "FARM";

/// Start of the name of an identity token; the plot's identifier follows.
pub const TOKEN_NAME_PREFIX: &'static str = "FarmTrace: ";

/// Start of the address of a token's metadata; the token's reference in
/// base 58 follows.
pub const METADATA_URI_PREFIX: &'static str = "https://farmtrace.io/api/metadata/";

/// How many tokens are minted for a plot.
pub const TOKEN_SUPPLY: u64 = 1;

/// Decimal places of an identity token.
pub const TOKEN_DECIMALS: u8 = 0;

/// Fee on resale, in hundredths of a percent.
pub const SELLER_FEE_BASIS_POINTS: u16 = 0;

/// Share of the farmer, the token's only creator, in percent.
pub const CREATOR_SHARE: u8 = 100;

/// The request to mint the identity token of a plot.
#[derive(Debug)]
pub struct IdentityTokenRequest {
    pub plot_id: String,
    /// The farmer, who receives the token.
    pub owner: Address,
    /// The reference under which the token is minted.
    pub mint: Address,
    /// The label of the plot's commodity.
    pub commodity: String,
    pub name: String,
    pub symbol: String,
    pub uri: String,
    pub supply: u64,
    pub decimals: u8,
    pub seller_fee_basis_points: u16,
    /// The share of the owner as the token's creator, in percent.
    pub creator_share: u8,
    /// Whether the owner is marked as a verified creator.
    pub creator_verified: bool,
    pub primary_sale_happened: bool,
    /// Whether the metadata may be changed later.
    pub is_mutable: bool,
}

/// A minting request as a mathematical value.
pub struct IdentityTokenRequestView {
    pub plot_id: Seq<char>,
    pub owner: Address,
    pub mint: Address,
    pub commodity: Seq<char>,
    pub name: Seq<char>,
    pub symbol: Seq<char>,
    pub uri: Seq<char>,
    pub supply: u64,
    pub decimals: u8,
    pub seller_fee_basis_points: u16,
    pub creator_share: u8,
    pub creator_verified: bool,
    pub primary_sale_happened: bool,
    pub is_mutable: bool,
}

impl View for IdentityTokenRequest {
    type V = IdentityTokenRequestView;

    open spec fn view(&self) -> IdentityTokenRequestView {
        IdentityTokenRequestView {
            plot_id: self.plot_id@,
            owner: self.owner,
            mint: self.mint,
            commodity: self.commodity@,
            name: self.name@,
            symbol: self.symbol@,
            uri: self.uri@,
            supply: self.supply,
            decimals: self.decimals,
            seller_fee_basis_points: self.seller_fee_basis_points,
            creator_share: self.creator_share,
            creator_verified: self.creator_verified,
            primary_sale_happened: self.primary_sale_happened,
            is_mutable: self.is_mutable,
        }
    }
}

/// The request for the token of the plot `plot_id` of `owner`: a single
/// indivisible token, named after the plot, whose metadata is found under
/// the token's reference in base 58 and may be changed later. The owner is
/// its only creator, verified, and takes no fee on resale.
pub open spec fn token_request(
    plot_id: Seq<char>,
    owner: Address,
    mint: Address,
    commodity_type: CommodityType,
) -> IdentityTokenRequestView {
    IdentityTokenRequestView {
        plot_id,
        owner,
        mint,
        commodity: commodity_type.label_text(),
        name: TOKEN_NAME_PREFIX@ + plot_id,
        symbol: TOKEN_SYMBOL@,
        uri: METADATA_URI_PREFIX@ + base58(mint.bytes),
        supply: TOKEN_SUPPLY,
        decimals: TOKEN_DECIMALS,
        seller_fee_basis_points: SELLER_FEE_BASIS_POINTS,
        creator_share: CREATOR_SHARE,
        creator_verified: true,
        primary_sale_happened: false,
        is_mutable: true,
    }
}

/// The request to mint the identity token of a plot.
pub fn identity_token_request(
    plot_id: &str,
    owner: &Address,
    mint: &Address,
    commodity_type: CommodityType,
) -> (r: IdentityTokenRequest)
    ensures
        r@ == token_request(plot_id@, *owner, *mint, commodity_type),
{
    let mut name = String::from_str(TOKEN_NAME_PREFIX);
    name.append(plot_id);
    let mut uri = String::from_str(METADATA_URI_PREFIX);
    let reference = mint.to_base58();
    uri.append(reference.as_str());
    IdentityTokenRequest {
        plot_id: String::from_str(plot_id),
        owner: *owner,
        mint: *mint,
        commodity: String::from_str(commodity_type.label()),
        name,
        symbol: String::from_str(TOKEN_SYMBOL),
        uri,
        supply: TOKEN_SUPPLY,
        decimals: TOKEN_DECIMALS,
        seller_fee_basis_points: SELLER_FEE_BASIS_POINTS,
        creator_share: CREATOR_SHARE,
        creator_verified: true,
        primary_sale_happened: false,
        is_mutable: true,
    }
}

} // verus!
