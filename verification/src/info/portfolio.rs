//! The portfolio history of a user.

use rust_decimal::Decimal;
use vstd::prelude::*;

use crate::common::{is_user_request_for, user_request, BasicUserRequest};
use crate::errors::HyperLiquidError;

verus! {

/// The request type of this endpoint.
pub const REQUEST_TYPE: &'static str = "portfolio";

/// The portfolio history of a user, one entry per period.
pub type PortfolioResponse = Vec<PortfolioHistoryEntry>;

/// The history of one period: the name of the period and its data.
#[derive(Debug, Clone)]
pub struct PortfolioHistoryEntry(pub String, pub PortfolioHistoryData);

/// Account value and profit over time, and the volume traded.
#[derive(Debug, Clone)]
pub struct PortfolioHistoryData {
    pub account_value_history: Vec<(u64, String)>,
    pub pnl_history: Vec<(u64, String)>,
    pub vlm: Decimal,
}

/// The request for the portfolio history of `user`.
/// Nothing is to be sent for a user that is no Ethereum address.
pub fn portfolio_request(user: &str) -> (result: Result<BasicUserRequest, HyperLiquidError>)
    ensures
        is_user_request_for(result, REQUEST_TYPE@, user@),
{
    user_request(REQUEST_TYPE, user)
}

} // verus!
