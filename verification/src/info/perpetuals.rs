//! The perpetuals universe and the perpetuals state of a user. These three
//! requests always go to the production API, once, without retries.

use vstd::prelude::*;

verus! {

/// The address that the requests of this file are posted to.
pub const PRODUCTION_INFO_URL: &'static str = "https://api.hyperliquid.xyz/info";

/// The request type of the perpetuals universe.
pub const META: &'static str = "meta";

/// The request type of the perpetuals universe with market data.
pub const META_AND_ASSET_CTXS: &'static str = "metaAndAssetCtxs";

/// The request type of the perpetuals state of a user.
pub const CLEARINGHOUSE_STATE: &'static str = "clearinghouseState";

/// The body of a request for the perpetuals universe.
#[derive(Debug)]
pub struct MetaRequest {
    /// The discriminator, sent as `type`.
    pub request_type: String,
}

/// The body of a request for the perpetuals universe with market data.
#[derive(Debug)]
pub struct MetaAndAssetCtxsRequest {
    /// The discriminator, sent as `type`.
    pub request_type: String,
}

/// The body of a request for the perpetuals state of a user.
#[derive(Debug)]
pub struct ClearingHouseStateRequest {
    /// The discriminator, sent as `type`.
    pub request_type: String,
    pub user: String,
}

/// A `ClearingHouseStateRequest` with its texts as character sequences.
pub struct ClearingHouseStateRequestView {
    pub request_type: Seq<char>,
    pub user: Seq<char>,
}

impl View for ClearingHouseStateRequest {
    type V = ClearingHouseStateRequestView;

    open spec fn view(&self) -> ClearingHouseStateRequestView {
        ClearingHouseStateRequestView { request_type: self.request_type@, user: self.user@ }
    }
}

/// The perpetuals that can be traded and the margin tables they refer to.
#[derive(Debug)]
pub struct MetaResponse {
    pub universe: Vec<Perp>,
    pub margin_tables: Vec<(u8, MarginTable)>,
}

/// One perpetual.
#[derive(Debug)]
pub struct Perp {
    pub sz_decimals: u8,
    pub name: String,
    pub max_leverage: u8,
    pub margin_table_id: u8,
    pub only_isolated: Option<bool>,
    pub is_delisted: Option<bool>,
}

/// A margin table: the leverage allowed from each position size on.
#[derive(Debug)]
pub struct MarginTable {
    pub description: String,
    pub margin_tiers: Vec<MarginTier>,
}

/// The leverage allowed from a given position size on.
#[derive(Debug)]
pub struct MarginTier {
    pub lower_bound: String,
    pub max_leverage: u8,
}

/// The perpetuals that can be traded, and the market data of each in the same order.
#[derive(Debug)]
pub struct MetaAndAssetCtxsResponse(pub UniverseData, pub Vec<MarketDataItem>);

/// The perpetuals that can be traded and the margin tables they refer to.
#[derive(Debug)]
pub struct UniverseData {
    pub universe: Vec<AssetInfo>,
    pub margin_tables: Vec<(u32, MarginTable)>,
}

/// One perpetual.
#[derive(Debug)]
pub struct AssetInfo {
    pub sz_decimals: u8,
    pub name: String,
    pub max_leverage: u32,
    pub margin_table_id: u32,
    pub is_delisted: Option<bool>,
    pub only_isolated: Option<bool>,
}

/// The market data of one perpetual.
#[derive(Debug)]
pub struct MarketDataItem {
    pub funding: String,
    pub open_interest: String,
    pub prev_day_px: String,
    pub day_ntl_vlm: String,
    pub premium: Option<String>,
    pub oracle_px: String,
    pub mark_px: String,
    pub mid_px: Option<String>,
    pub impact_pxs: Option<Vec<String>>,
    pub day_base_vlm: String,
}

/// The perpetuals state of a user.
#[derive(Debug)]
pub struct ClearingHouseStateResponse {
    pub margin_summary: MarginSummary,
    pub cross_margin_summary: CrossMarginSummary,
    pub cross_maintenance_margin_used: String,
    pub withdrawable: String,
    pub asset_positions: Vec<AssetPosition>,
    pub time: u64,
}

/// The margin figures of an account.
#[derive(Debug)]
pub struct MarginSummary {
    pub account_value: String,
    pub total_ntl_pos: String,
    pub total_raw_usd: String,
    pub total_margin_used: String,
}

/// The margin figures of the cross-margin positions of an account.
#[derive(Debug)]
pub struct CrossMarginSummary {
    pub account_value: String,
    pub total_ntl_pos: String,
    pub total_raw_usd: String,
    pub total_margin_used: String,
}

/// One position and its kind.
#[derive(Debug)]
pub struct AssetPosition {
    pub position_type: String,
    pub position: Position,
}

/// A position in one perpetual.
#[derive(Debug)]
pub struct Position {
    pub coin: String,
    pub szi: String,
    pub leverage: Leverage,
    pub entry_px: String,
    pub position_value: String,
    pub unrealized_pnl: String,
    pub return_on_equity: String,
    pub liquidation_px: String,
    pub margin_used: String,
    pub max_leverage: u32,
    pub cum_funding: CumFunding,
}

/// The leverage of a position.
#[derive(Debug)]
pub struct Leverage {
    pub leverage_type: String,
    pub value: u32,
    pub raw_usd: Option<String>,
}

/// The funding paid on a position.
#[derive(Debug)]
pub struct CumFunding {
    pub all_time: String,
    pub since_open: String,
    pub since_change: String,
}

/// The request for the perpetuals universe.
pub fn meta_request() -> (request: MetaRequest)
    ensures
        request.request_type@ == META@,
{
    MetaRequest { request_type: String::from_str(META) }
}

/// The request for the perpetuals universe with market data.
pub fn meta_and_asset_ctxs_request() -> (request: MetaAndAssetCtxsRequest)
    ensures
        request.request_type@ == META_AND_ASSET_CTXS@,
{
    MetaAndAssetCtxsRequest { request_type: String::from_str(META_AND_ASSET_CTXS) }
}

/// The request for the perpetuals state of `user`. The user is sent as it
/// is given; this request does not check it.
pub fn clearing_house_state_request(user: &str) -> (request: ClearingHouseStateRequest)
    ensures
        request@ == (ClearingHouseStateRequestView {
            request_type: CLEARINGHOUSE_STATE@,
            user: user@,
        }),
{
    ClearingHouseStateRequest {
        request_type: String::from_str(CLEARINGHOUSE_STATE),
        user: String::from_str(user),
    }
}

} // verus!
