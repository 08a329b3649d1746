//! The past orders of a user with their final states.

use vstd::prelude::*;

use crate::common::{is_user_request_for, user_request, BasicUserRequest};
use crate::errors::HyperLiquidError;
use crate::types::{Order, OrderState};

verus! {

/// The request type of this endpoint.
pub const REQUEST_TYPE: &'static str = "historicalOrders";

/// One past order with its state and the time it reached that state.
#[derive(Debug)]
pub struct HistoricalOrdersResponse {
    pub order: Order,
    pub status: OrderState,
    pub status_timestamp: u64,
}

/// The request for the past orders of `user`.
/// Nothing is to be sent for a user that is no Ethereum address.
pub fn historical_orders_request(user: &str) -> (result: Result<BasicUserRequest, HyperLiquidError>)
    ensures
        is_user_request_for(result, REQUEST_TYPE@, user@),
{
    user_request(REQUEST_TYPE, user)
}

} // verus!
