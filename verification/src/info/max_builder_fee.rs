//! The highest fee that a user has approved for a builder.

use rust_decimal::Decimal;
use vstd::prelude::*;

use crate::errors::{
    address_complaint, is_ethereum_address, validate_ethereum_address, HyperLiquidError,
    HyperLiquidErrorView,
};

verus! {

/// The request type of this endpoint.
pub const REQUEST_TYPE: &'static str = "maxBuilderFee";

/// The body of a builder fee request.
#[derive(Debug)]
pub struct MaxBuilderFeeRequest {
    /// The discriminator, sent as `type`.
    pub request_type: String,
    pub user: String,
    pub builder: String,
}

/// A `MaxBuilderFeeRequest` with its texts as character sequences.
pub struct MaxBuilderFeeRequestView {
    pub request_type: Seq<char>,
    pub user: Seq<char>,
    pub builder: Seq<char>,
}

impl View for MaxBuilderFeeRequest {
    type V = MaxBuilderFeeRequestView;

    open spec fn view(&self) -> MaxBuilderFeeRequestView {
        MaxBuilderFeeRequestView {
            request_type: self.request_type@,
            user: self.user@,
            builder: self.builder@,
        }
    }
}

/// The highest fee that a user has approved for a builder.
#[derive(Debug)]
pub struct MaxBuilderFeeResponse {
    pub fee: Decimal,
}

/// What stands against a builder fee request: the complaint about the
/// user, else about the builder; `None` if both are Ethereum addresses.
pub open spec fn max_builder_fee_fault(user: Seq<char>, builder: Seq<char>) -> Option<
    HyperLiquidErrorView,
> {
    if !is_ethereum_address(user) {
        Some(HyperLiquidErrorView::InvalidAddress(address_complaint(user)))
    } else if !is_ethereum_address(builder) {
        Some(HyperLiquidErrorView::InvalidAddress(address_complaint(builder)))
    } else {
        None
    }
}

/// The request for the highest fee that `user` has approved for `builder`,
/// or the first complaint about the two addresses.
pub fn max_builder_fee_request(user: &str, builder: &str) -> (result: Result<
    MaxBuilderFeeRequest,
    HyperLiquidError,
>)
    ensures
        match result {
            Ok(request) => max_builder_fee_fault(user@, builder@) is None && request@ == (
            MaxBuilderFeeRequestView {
                request_type: REQUEST_TYPE@,
                user: user@,
                builder: builder@,
            }),
            Err(error) => max_builder_fee_fault(user@, builder@) == Some(error@),
        },
{
    match validate_ethereum_address(user) {
        Ok(()) => {},
        Err(error) => {
            return Err(error);
        },
    }
    match validate_ethereum_address(builder) {
        Ok(()) => {},
        Err(error) => {
            return Err(error);
        },
    }
    Ok(
        MaxBuilderFeeRequest {
            request_type: String::from_str(REQUEST_TYPE),
            user: String::from_str(user),
            builder: String::from_str(builder),
        },
    )
}

} // verus!
