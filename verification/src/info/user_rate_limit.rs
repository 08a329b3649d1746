//! How much of the request allowance a user has used.

use rust_decimal::Decimal;
use vstd::prelude::*;

use crate::common::{is_user_request_for, user_request, BasicUserRequest};
use crate::errors::HyperLiquidError;

verus! {

/// The request type of this endpoint.
pub const REQUEST_TYPE: &'static str = "userRateLimit";

/// The volume traded, the requests used and the requests allowed.
#[derive(Debug)]
pub struct UserRateLimitResponse {
    pub cum_vlm: Decimal,
    pub n_requests_used: u64,
    pub n_requests_cap: u64,
}

/// The request for the rate limit state of `user`.
/// Nothing is to be sent for a user that is no Ethereum address.
pub fn user_rate_limit_request(user: &str) -> (result: Result<BasicUserRequest, HyperLiquidError>)
    ensures
        is_user_request_for(result, REQUEST_TYPE@, user@),
{
    user_request(REQUEST_TYPE, user)
}

} // verus!
