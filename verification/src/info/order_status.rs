//! The status of one order of a user.

use vstd::prelude::*;

use crate::errors::{
    address_complaint, is_ethereum_address, validate_ethereum_address, HyperLiquidError,
    HyperLiquidErrorView,
};
use crate::types::Order;

verus! {

/// The request type of this endpoint.
pub const REQUEST_TYPE: &'static str = "orderStatus";

/// The body of an order status request.
#[derive(Debug)]
pub struct OrderStatusRequest {
    /// The discriminator, sent as `type`.
    pub request_type: String,
    pub user: String,
    pub oid: u64,
}

/// An `OrderStatusRequest` with its texts as character sequences.
pub struct OrderStatusRequestView {
    pub request_type: Seq<char>,
    pub user: Seq<char>,
    pub oid: u64,
}

impl View for OrderStatusRequest {
    type V = OrderStatusRequestView;

    open spec fn view(&self) -> OrderStatusRequestView {
        OrderStatusRequestView {
            request_type: self.request_type@,
            user: self.user@,
            oid: self.oid,
        }
    }
}

/// Whether the order was found, and what is known of it.
#[derive(Debug)]
pub struct OrderStatusResponse {
    pub status: String,
    pub order: OrderStatus,
}

/// An order with its state and the time it reached that state.
#[derive(Debug)]
pub struct OrderStatus {
    pub order: Order,
    pub status: String,
    pub status_timestamp: u64,
}

/// The request for the status of the order `oid` of `user`, or the
/// complaint about `user` if it is no Ethereum address.
pub fn order_status_request(user: &str, oid: u64) -> (result: Result<
    OrderStatusRequest,
    HyperLiquidError,
>)
    ensures
        match result {
            Ok(request) => is_ethereum_address(user@) && request@ == (OrderStatusRequestView {
                request_type: REQUEST_TYPE@,
                user: user@,
                oid,
            }),
            Err(error) => !is_ethereum_address(user@) && error@
                == HyperLiquidErrorView::InvalidAddress(address_complaint(user@)),
        },
{
    match validate_ethereum_address(user) {
        Ok(()) => Ok(
            OrderStatusRequest {
                request_type: String::from_str(REQUEST_TYPE),
                user: String::from_str(user),
                oid,
            },
        ),
        Err(error) => Err(error),
    }
}

} // verus!
