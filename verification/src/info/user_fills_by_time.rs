//! The fills of a user in a time range.

use rust_decimal::Decimal;
use vstd::prelude::*;

use crate::errors::{
    address_complaint, is_ethereum_address, is_time_range, validate_ethereum_address,
    validate_time_range, HyperLiquidError, HyperLiquidErrorView,
};

verus! {

/// The request type of this endpoint.
pub const REQUEST_TYPE: &'static str = "userFillsByTime";

/// The body of a request for fills in a time range.
#[derive(Debug)]
pub struct UserFillsByTimeRequest {
    /// The discriminator, sent as `type`.
    pub request_type: String,
    pub user: String,
    pub start_time: u64,
    /// The end of the range; up to now if absent.
    pub end_time: Option<u64>,
    /// Whether partial fills of one order at one time are merged.
    pub aggregated_by_time: bool,
}

/// A `UserFillsByTimeRequest` with its texts as character sequences.
pub struct UserFillsByTimeRequestView {
    pub request_type: Seq<char>,
    pub user: Seq<char>,
    pub start_time: u64,
    pub end_time: Option<u64>,
    pub aggregated_by_time: bool,
}

impl View for UserFillsByTimeRequest {
    type V = UserFillsByTimeRequestView;

    open spec fn view(&self) -> UserFillsByTimeRequestView {
        UserFillsByTimeRequestView {
            request_type: self.request_type@,
            user: self.user@,
            start_time: self.start_time,
            end_time: self.end_time,
            aggregated_by_time: self.aggregated_by_time,
        }
    }
}

/// One fill.
#[derive(Debug)]
pub struct UserFillsByTimeResponse {
    pub coin: String,
    pub px: Decimal,
    pub sz: Decimal,
    pub side: String,
    pub time: u64,
    pub start_position: Decimal,
    pub dir: String,
    pub closed_pnl: Decimal,
    pub hash: String,
    pub oid: u64,
    pub crossed: bool,
    pub fee: Decimal,
    pub tid: u64,
    pub fee_token: String,
    pub liquidation: Option<Liquidation>,
}

/// The liquidation that a fill was part of.
#[derive(Debug)]
pub struct Liquidation {
    pub liquidated_user: String,
    pub mark_px: Decimal,
    pub method: String,
}

/// What stands against a request for fills in a time range: the complaint
/// about the user, else about the range if it has an end and does not
/// start before it; `None` if both pass. A range without an end always
/// passes.
pub open spec fn user_fills_by_time_fault(
    user: Seq<char>,
    start_time: u64,
    end_time: Option<u64>,
) -> Option<HyperLiquidErrorView> {
    if !is_ethereum_address(user) {
        Some(HyperLiquidErrorView::InvalidAddress(address_complaint(user)))
    } else if end_time is Some && !is_time_range(start_time, end_time->0) {
        Some(HyperLiquidErrorView::InvalidTimeRange { start: start_time, end: end_time->0 })
    } else {
        None
    }
}

/// The request for the fills of `user` from `start_time` to `end_time`, or
/// the first complaint about these values.
pub fn user_fills_by_time_request(
    user: &str,
    start_time: u64,
    end_time: Option<u64>,
    aggregated_by_time: bool,
) -> (result: Result<UserFillsByTimeRequest, HyperLiquidError>)
    ensures
        match result {
            Ok(request) => user_fills_by_time_fault(user@, start_time, end_time) is None
                && request@ == (UserFillsByTimeRequestView {
                request_type: REQUEST_TYPE@,
                user: user@,
                start_time,
                end_time,
                aggregated_by_time,
            }),
            Err(error) => user_fills_by_time_fault(user@, start_time, end_time) == Some(error@),
        },
{
    match validate_ethereum_address(user) {
        Ok(()) => {},
        Err(error) => {
            return Err(error);
        },
    }
    match end_time {
        Some(end) => match validate_time_range(start_time, end) {
            Ok(()) => {},
            Err(error) => {
                return Err(error);
            },
        },
        None => {},
    }
    Ok(
        UserFillsByTimeRequest {
            request_type: String::from_str(REQUEST_TYPE),
            user: String::from_str(user),
            start_time,
            end_time,
            aggregated_by_time,
        },
    )
}

} // verus!
