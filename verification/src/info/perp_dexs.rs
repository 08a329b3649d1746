//! The perpetuals exchanges that exist.

use vstd::prelude::*;

use crate::common::{BasicRequest, BasicRequestView};

verus! {

/// The request type of this endpoint.
pub const REQUEST_TYPE: &'static str = "perpDexs";

/// The perpetuals exchanges; the first entry, which has no data, is the main one.
pub type PerpDexsResponse = Vec<Option<PerpDex>>;

/// One perpetuals exchange.
#[derive(Debug)]
pub struct PerpDex {
    pub name: String,
    pub full_name: String,
    pub deployer: String,
    pub oracle_updater: String,
}

/// The request for the list of perpetuals exchanges.
pub fn perp_dexs_request() -> (request: BasicRequest)
    ensures
        request@ == (BasicRequestView { request_type: REQUEST_TYPE@ }),
{
    BasicRequest::new(REQUEST_TYPE)
}

} // verus!
