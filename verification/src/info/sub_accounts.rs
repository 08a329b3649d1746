//! The sub-accounts of a user.

use rust_decimal::Decimal;
use vstd::prelude::*;

use crate::common::{is_user_request_for, user_request, BasicUserRequest};
use crate::errors::HyperLiquidError;

verus! {

/// The request type of this endpoint.
pub const REQUEST_TYPE: &'static str = "subAccounts";

/// The sub-accounts of a user, if there are any.
pub type SubAccountsResponse = Option<Vec<SubAccounts>>;

/// One sub-account with its perpetuals and spot state.
#[derive(Debug)]
pub struct SubAccounts {
    pub name: String,
    pub sub_account_user: String,
    pub master: String,
    pub clearinghouse_state: ClearinghouseState,
    pub spot_state: SpotState,
}

/// The perpetuals state of an account.
#[derive(Debug)]
pub struct ClearinghouseState {
    pub margin_summary: MarginSummary,
    pub cross_margin_summary: MarginSummary,
    pub cross_maintenance_margin_used: Decimal,
    pub withdrawable: Decimal,
    pub asset_positions: Vec<serde_json::Value>,
    pub time: u64,
}

/// The margin figures of an account.
#[derive(Debug)]
pub struct MarginSummary {
    pub account_value: Decimal,
    pub total_ntl_pos: Decimal,
    pub total_raw_usd: Decimal,
    pub total_margin_used: Decimal,
}

/// The spot balances of an account.
#[derive(Debug)]
pub struct SpotState {
    pub balances: Vec<Balance>,
}

/// The balance of one token.
#[derive(Debug)]
pub struct Balance {
    pub coin: String,
    pub token: u32,
    pub total: Decimal,
    pub hold: Decimal,
    pub entry_ntl: Decimal,
}

/// The request for the sub-accounts of `user`.
/// Nothing is to be sent for a user that is no Ethereum address.
pub fn sub_accounts_request(user: &str) -> (result: Result<BasicUserRequest, HyperLiquidError>)
    ensures
        is_user_request_for(result, REQUEST_TYPE@, user@),
{
    user_request(REQUEST_TYPE, user)
}

} // verus!
