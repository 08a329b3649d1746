//! The open orders of a user.

use rust_decimal::Decimal;
use vstd::prelude::*;

use crate::common::{is_user_request_for, user_request, BasicUserRequest};
use crate::errors::HyperLiquidError;

verus! {

/// The request type of this endpoint.
pub const REQUEST_TYPE: &'static str = "openOrders";

/// Simplified order structure returned by the openOrders endpoint
#[derive(Debug)]
pub struct OpenOrdersResponse {
    pub coin: String,
    pub side: String,
    pub limit_px: Decimal,
    pub sz: Decimal,
    pub oid: u64,
    pub timestamp: u64,
    pub orig_sz: Decimal,
    pub cloid: String,
}

/// The request for the open orders of `user`.
/// Nothing is to be sent for a user that is no Ethereum address.
pub fn open_orders_request(user: &str) -> (result: Result<BasicUserRequest, HyperLiquidError>)
    ensures
        is_user_request_for(result, REQUEST_TYPE@, user@),
{
    user_request(REQUEST_TYPE, user)
}

} // verus!
