//! What every request to the info endpoint has in common: the path, the
//! content type, and the two plain envelopes.

use vstd::prelude::*;

use crate::errors::{
    address_complaint, is_ethereum_address, validate_ethereum_address, HyperLiquidError,
    HyperLiquidErrorView,
};

verus! {

/// The path of the info endpoint below the base URL.
pub const INFO_PATH: &'static str = "/info";

/// The name of the header that tells the type of the body.
pub const CONTENT_TYPE: &'static str = "Content-Type";

/// The content type of every request body.
pub const APPLICATION_JSON: &'static str = "application/json";

/// The address that requests are posted to: the base URL and the info path.
pub fn info_url(base_url: &str) -> (url: String)
    ensures
        url@ == base_url@ + INFO_PATH@,
{
    let mut url = String::from_str(base_url);
    url.append(INFO_PATH);
    url
}

/// The envelope of a request that names its type and a user.
#[derive(Debug)]
pub struct BasicUserRequest {
    /// The discriminator, sent as `type`.
    pub request_type: String,
    /// The address of the user, sent as `user`.
    pub user: String,
}

/// A `BasicUserRequest` with its texts as character sequences.
pub struct BasicUserRequestView {
    pub request_type: Seq<char>,
    pub user: Seq<char>,
}

impl View for BasicUserRequest {
    type V = BasicUserRequestView;

    open spec fn view(&self) -> BasicUserRequestView {
        BasicUserRequestView { request_type: self.request_type@, user: self.user@ }
    }
}

/// The envelope of a request that names its type and nothing else.
#[derive(Debug)]
pub struct BasicRequest {
    /// The discriminator, sent as `type`.
    pub request_type: String,
}

/// A `BasicRequest` with its text as a character sequence.
pub struct BasicRequestView {
    pub request_type: Seq<char>,
}

impl View for BasicRequest {
    type V = BasicRequestView;

    open spec fn view(&self) -> BasicRequestView {
        BasicRequestView { request_type: self.request_type@ }
    }
}

impl BasicRequest {
    /// The envelope of the request `request_type`.
    pub fn new(request_type: &str) -> (request: BasicRequest)
        ensures
            request@ == (BasicRequestView { request_type: request_type@ }),
    {
        BasicRequest { request_type: String::from_str(request_type) }
    }
}

impl BasicUserRequest {
    /// The envelope of the request `request_type` for `user`, with `user`
    /// taken as it is given.
    pub fn new(request_type: &str, user: &str) -> (request: BasicUserRequest)
        ensures
            request@ == (BasicUserRequestView { request_type: request_type@, user: user@ }),
    {
        BasicUserRequest {
            request_type: String::from_str(request_type),
            user: String::from_str(user),
        }
    }
}

/// What a builder returns that checks `user` and nothing else: the
/// envelope of the request `request_type` for `user` if `user` is an
/// Ethereum address, and otherwise the complaint about it.
pub open spec fn is_user_request_for(
    result: Result<BasicUserRequest, HyperLiquidError>,
    request_type: Seq<char>,
    user: Seq<char>,
) -> bool {
    match result {
        Ok(request) => is_ethereum_address(user) && request@ == (BasicUserRequestView {
            request_type,
            user,
        }),
        Err(error) => !is_ethereum_address(user) && error@
            == HyperLiquidErrorView::InvalidAddress(address_complaint(user)),
    }
}

/// The envelope of the request `request_type` for `user`, or the complaint
/// about `user` if it is no Ethereum address. Nothing is to be sent for a
/// user that does not pass.
pub fn user_request(request_type: &str, user: &str) -> (result: Result<
    BasicUserRequest,
    HyperLiquidError,
>)
    ensures
        is_user_request_for(result, request_type@, user@),
{
    match validate_ethereum_address(user) {
        Ok(()) => Ok(BasicUserRequest::new(request_type, user)),
        Err(error) => Err(error),
    }
}

} // verus!
