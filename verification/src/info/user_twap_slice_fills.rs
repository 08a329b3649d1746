//! The fills of the slices of a user's TWAP orders.

use rust_decimal::Decimal;
use vstd::prelude::*;

use crate::common::{is_user_request_for, user_request, BasicUserRequest};
use crate::errors::HyperLiquidError;

verus! {

/// The request type of this endpoint.
pub const REQUEST_TYPE: &'static str = "userTwapSliceFills";

/// One fill of a slice and the TWAP order it belongs to.
#[derive(Debug)]
pub struct UserTwapSliceFillsResponse {
    pub fill: Fill,
    pub twap_id: u64,
}

/// One fill.
#[derive(Debug)]
pub struct Fill {
    pub coin: String,
    pub px: Decimal,
    pub sz: Decimal,
    pub side: String,
    pub time: u64,
    pub start_position: Decimal,
    pub dir: String,
    pub closed_pnl: Decimal,
    pub hash: String,
    pub oid: u64,
    pub crossed: bool,
    pub fee: Decimal,
    pub tid: u64,
    pub fee_token: String,
}

/// The request for the TWAP slice fills of `user`.
/// Nothing is to be sent for a user that is no Ethereum address.
pub fn user_twap_slice_fills_request(user: &str) -> (result: Result<
    BasicUserRequest,
    HyperLiquidError,
>)
    ensures
        is_user_request_for(result, REQUEST_TYPE@, user@),
{
    user_request(REQUEST_TYPE, user)
}

} // verus!
