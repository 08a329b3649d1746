//! The history of a user's delegations.

use rust_decimal::Decimal;
use vstd::prelude::*;

use crate::common::{is_user_request_for, user_request, BasicUserRequest};
use crate::errors::HyperLiquidError;

verus! {

/// The request type of this endpoint.
pub const REQUEST_TYPE: &'static str = "delegatorHistory";

/// The delegation history of a user, one entry per change.
pub type DelegatorHistoryResponse = Vec<DelegatorHistory>;

/// One change in the delegations of a user.
#[derive(Debug)]
pub struct DelegatorHistory {
    pub time: u64,
    pub hash: String,
    pub delta: DelegatorHistoryDelta,
}

/// What a change in the delegations did.
#[derive(Debug)]
pub struct DelegatorHistoryDelta {
    pub delegate: Option<DelegatorHistoryDelegate>,
}

/// A delegation to a validator, or its withdrawal.
#[derive(Debug)]
pub struct DelegatorHistoryDelegate {
    pub validator: String,
    pub amount: Decimal,
    pub is_undelegate: bool,
}

/// The request for the delegation history of `user`.
/// Nothing is to be sent for a user that is no Ethereum address.
pub fn delegator_history_request(user: &str) -> (result: Result<BasicUserRequest, HyperLiquidError>)
    ensures
        is_user_request_for(result, REQUEST_TYPE@, user@),
{
    user_request(REQUEST_TYPE, user)
}

} // verus!
