//! The mid prices of all trading pairs: for each pair the mean of the best
//! bid and the best ask.

use rust_decimal::Decimal;
use std::collections::HashMap;
use vstd::prelude::*;

use crate::common::{BasicRequest, BasicRequestView};

verus! {

/// The request type of this endpoint.
pub const REQUEST_TYPE: &'static str = "allMids";

/// A price, kept as an exact decimal number.
#[derive(Debug, Clone)]
pub struct Price(pub Decimal);

/// The mid prices of all trading pairs.
///
/// Maps each coin symbol, such as `BTC`, to its current mid price.
#[derive(Debug)]
pub struct MidPrices {
    pub prices: HashMap<String, Price>,
}

/// The request for the mid prices of all trading pairs.
pub fn all_mids_request() -> (request: BasicRequest)
    ensures
        request@ == (BasicRequestView { request_type: REQUEST_TYPE@ }),
{
    BasicRequest::new(REQUEST_TYPE)
}

} // verus!
