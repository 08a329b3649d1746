//! The latest fills of a user.

use rust_decimal::Decimal;
use vstd::prelude::*;

use crate::common::{is_user_request_for, user_request, BasicUserRequest};
use crate::errors::HyperLiquidError;

verus! {

/// The request type of this endpoint.
pub const REQUEST_TYPE: &'static str = "userFills";

/// One fill.
#[derive(Debug)]
pub struct UserFillsResponse {
    pub coin: String,
    /// The price of the fill.
    pub px: Decimal,
    /// The size of the fill.
    pub sz: Decimal,
    pub side: String,
    pub time: u64,
    /// The position before the fill.
    pub start_position: Decimal,
    pub dir: String,
    /// The profit or loss that the fill closed.
    pub closed_pnl: Decimal,
    pub hash: String,
    pub oid: u64,
    pub crossed: bool,
    /// The fee paid for the fill.
    pub fee: Decimal,
    pub tid: u64,
    pub cloid: Option<String>,
    pub fee_token: String,
}

/// The request for the latest fills of `user`.
/// Nothing is to be sent for a user that is no Ethereum address.
pub fn user_fills_request(user: &str) -> (result: Result<BasicUserRequest, HyperLiquidError>)
    ensures
        is_user_request_for(result, REQUEST_TYPE@, user@),
{
    user_request(REQUEST_TYPE, user)
}

} // verus!
