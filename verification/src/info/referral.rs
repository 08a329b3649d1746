//! The referral state of a user.

use rust_decimal::Decimal;
use vstd::prelude::*;

use crate::common::{is_user_request_for, user_request, BasicUserRequest};
use crate::errors::HyperLiquidError;

verus! {

/// The request type of this endpoint.
pub const REQUEST_TYPE: &'static str = "referral";

/// Who referred a user, and what the user has earned by referring others.
#[derive(Debug)]
pub struct ReferralResponse {
    pub referred_by: Option<String>,
    pub cum_vlm: Decimal,
    pub unclaimed_rewards: Decimal,
    pub claimed_rewards: Decimal,
    pub builder_rewards: Decimal,
    pub referrer_state: ReferrerState,
    pub reward_history: Vec<RewardHistoryItem>,
}

/// How far a user is on the way to become a referrer.
#[derive(Debug, Clone)]
pub struct ReferrerState {
    pub stage: String,
}

/// One payment of referral rewards.
#[derive(Debug, Clone)]
pub struct RewardHistoryItem {
    pub time: u64,
    pub amount: Decimal,
}

/// The request for the referral state of `user`.
/// Nothing is to be sent for a user that is no Ethereum address.
pub fn referral_request(user: &str) -> (result: Result<BasicUserRequest, HyperLiquidError>)
    ensures
        is_user_request_for(result, REQUEST_TYPE@, user@),
{
    user_request(REQUEST_TYPE, user)
}

} // verus!
