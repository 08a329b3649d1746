//! The open orders of a user with the details that a frontend shows.

use vstd::prelude::*;

use crate::common::{is_user_request_for, user_request, BasicUserRequest};
use crate::errors::HyperLiquidError;
use crate::types::Order;

verus! {

/// The request type of this endpoint.
pub const REQUEST_TYPE: &'static str = "frontendOpenOrders";

/// One open order in full detail.
pub type FrontendOpenOrdersResponse = Order;

/// The request for the open orders of `user` in full detail.
/// Nothing is to be sent for a user that is no Ethereum address.
pub fn frontend_open_orders_request(user: &str) -> (result: Result<
    BasicUserRequest,
    HyperLiquidError,
>)
    ensures
        is_user_request_for(result, REQUEST_TYPE@, user@),
{
    user_request(REQUEST_TYPE, user)
}

} // verus!
