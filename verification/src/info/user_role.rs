//! The role of an address.

use vstd::prelude::*;

use crate::common::{is_user_request_for, user_request, BasicUserRequest};
use crate::errors::HyperLiquidError;

verus! {

/// The request type of this endpoint.
pub const REQUEST_TYPE: &'static str = "userRole";

/// The role of an address.
#[derive(Debug)]
pub struct UserRoleResponse {
    pub role: Role,
}

/// What an address is.
#[derive(Debug)]
pub enum Role {
    Missing,
    User,
    Agent,
    Vault,
    SubAccount,
}

/// The request for the role of `user`.
/// Nothing is to be sent for a user that is no Ethereum address.
pub fn user_role_request(user: &str) -> (result: Result<BasicUserRequest, HyperLiquidError>)
    ensures
        is_user_request_for(result, REQUEST_TYPE@, user@),
{
    user_request(REQUEST_TYPE, user)
}

} // verus!
