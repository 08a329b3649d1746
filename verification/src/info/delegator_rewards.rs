//! The staking rewards of a user.

use rust_decimal::Decimal;
use vstd::prelude::*;

use crate::common::{is_user_request_for, user_request, BasicUserRequest};
use crate::errors::HyperLiquidError;

verus! {

/// The request type of this endpoint.
pub const REQUEST_TYPE: &'static str = "delegatorRewards";

/// The staking rewards of a user, one entry per payment.
pub type DelegatorRewardsResponse = Vec<DelegatorRewards>;

/// One payment of staking rewards.
#[derive(Debug)]
pub struct DelegatorRewards {
    pub time: u64,
    pub source: String,
    pub total_amount: Decimal,
}

/// The request for the staking rewards of `user`.
/// Nothing is to be sent for a user that is no Ethereum address.
pub fn delegator_rewards_request(user: &str) -> (result: Result<BasicUserRequest, HyperLiquidError>)
    ensures
        is_user_request_for(result, REQUEST_TYPE@, user@),
{
    user_request(REQUEST_TYPE, user)
}

} // verus!
