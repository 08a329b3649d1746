//! The staking delegations of a user.

use rust_decimal::Decimal;
use vstd::prelude::*;

use crate::common::{is_user_request_for, user_request, BasicUserRequest};
use crate::errors::HyperLiquidError;

verus! {

/// The request type of this endpoint.
pub const REQUEST_TYPE: &'static str = "delegations";

/// The delegations of a user, one entry per validator.
pub type DelegationsResponse = Vec<ValidatorStaking>;

/// What a user has delegated to one validator.
#[derive(Debug, Clone)]
pub struct ValidatorStaking {
    pub validator: String,
    pub amount: Decimal,
    pub locked_until_timestamp: u64,
}

/// The request for the delegations of `user`.
/// Nothing is to be sent for a user that is no Ethereum address.
pub fn delegations_request(user: &str) -> (result: Result<BasicUserRequest, HyperLiquidError>)
    ensures
        is_user_request_for(result, REQUEST_TYPE@, user@),
{
    user_request(REQUEST_TYPE, user)
}

} // verus!
