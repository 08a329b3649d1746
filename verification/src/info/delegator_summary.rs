//! The summary of a user's staking.

use rust_decimal::Decimal;
use vstd::prelude::*;

use crate::common::{is_user_request_for, user_request, BasicUserRequest};
use crate::errors::HyperLiquidError;

verus! {

/// The request type of this endpoint.
pub const REQUEST_TYPE: &'static str = "delegatorSummary";

/// How much a user has delegated, has free, and has in pending withdrawals.
#[derive(Debug)]
pub struct DelegatorSummaryResponse {
    pub delegated: Decimal,
    pub undelegated: Decimal,
    pub total_pending_withdrawal: Decimal,
    pub n_pending_withdrawals: u64,
}

/// The request for the staking summary of `user`.
/// Nothing is to be sent for a user that is no Ethereum address.
pub fn delegator_summary_request(user: &str) -> (result: Result<BasicUserRequest, HyperLiquidError>)
    ensures
        is_user_request_for(result, REQUEST_TYPE@, user@),
{
    user_request(REQUEST_TYPE, user)
}

} // verus!
