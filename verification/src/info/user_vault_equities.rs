//! What a user holds in vaults.

use rust_decimal::Decimal;
use vstd::prelude::*;

use crate::common::{is_user_request_for, user_request, BasicUserRequest};
use crate::errors::HyperLiquidError;

verus! {

/// The request type of this endpoint.
pub const REQUEST_TYPE: &'static str = "userVaultEquities";

/// The vault positions of a user, if there are any.
pub type UserVaultEquitiesResponse = Option<Vec<VaultPosition>>;

/// The equity of a user in one vault.
#[derive(Debug)]
pub struct VaultPosition {
    pub vault_address: String,
    pub equity: Decimal,
    pub locked_until_timestamp: u64,
}

/// The request for the vault equities of `user`.
/// Nothing is to be sent for a user that is no Ethereum address.
pub fn user_vault_equities_request(user: &str) -> (result: Result<
    BasicUserRequest,
    HyperLiquidError,
>)
    ensures
        is_user_request_for(result, REQUEST_TYPE@, user@),
{
    user_request(REQUEST_TYPE, user)
}

} // verus!
