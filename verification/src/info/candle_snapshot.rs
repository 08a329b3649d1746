//! Candles of a coin over a time range.

use rust_decimal::Decimal;
use vstd::prelude::*;

use crate::errors::{
    coin_complaint, interval_complaint, is_candle_interval, is_coin_symbol, is_time_range,
    validate_coin_symbol, validate_interval, validate_time_range, HyperLiquidError,
    HyperLiquidErrorView,
};

verus! {

/// The request type of this endpoint.
pub const REQUEST_TYPE: &'static str = "candleSnapshot";

/// Which candles are asked for.
#[derive(Debug)]
pub struct CandleRequest {
    pub coin: String,
    pub interval: String,
    pub start_time: u64,
    pub end_time: u64,
}

/// The body of a candle snapshot request.
#[derive(Debug)]
pub struct CandleSnapshotRequest {
    /// The discriminator, sent as `type`.
    pub request_type: String,
    pub req: CandleRequest,
}

/// A `CandleRequest` with its texts as character sequences.
pub struct CandleRequestView {
    pub coin: Seq<char>,
    pub interval: Seq<char>,
    pub start_time: u64,
    pub end_time: u64,
}

/// A `CandleSnapshotRequest` with its texts as character sequences.
pub struct CandleSnapshotRequestView {
    pub request_type: Seq<char>,
    pub req: CandleRequestView,
}

impl View for CandleRequest {
    type V = CandleRequestView;

    open spec fn view(&self) -> CandleRequestView {
        CandleRequestView {
            coin: self.coin@,
            interval: self.interval@,
            start_time: self.start_time,
            end_time: self.end_time,
        }
    }
}

impl View for CandleSnapshotRequest {
    type V = CandleSnapshotRequestView;

    open spec fn view(&self) -> CandleSnapshotRequestView {
        CandleSnapshotRequestView { request_type: self.request_type@, req: self.req@ }
    }
}

/// One candle.
#[derive(Debug)]
pub struct CandleData {
    /// When the candle opens, in milliseconds since the Unix epoch.
    pub t: u64,
    /// When the candle closes, in milliseconds since the Unix epoch.
    pub end_time: u64,
    /// The coin.
    pub s: String,
    /// The interval.
    pub i: String,
    /// The opening price.
    pub o: Decimal,
    /// The closing price.
    pub c: Decimal,
    /// The highest price.
    pub h: Decimal,
    /// The lowest price.
    pub l: Decimal,
    /// The volume traded.
    pub v: Decimal,
    /// How many trades took place.
    pub n: u32,
}

/// What stands against a candle snapshot request: the complaint about the
/// coin, else about the interval, else about the time range; `None` if all
/// three pass.
pub open spec fn candle_snapshot_fault(
    coin: Seq<char>,
    interval: Seq<char>,
    start_time: u64,
    end_time: u64,
) -> Option<HyperLiquidErrorView> {
    if !is_coin_symbol(coin) {
        Some(HyperLiquidErrorView::InvalidCoin(coin_complaint(coin)))
    } else if !is_candle_interval(interval) {
        Some(HyperLiquidErrorView::InvalidInput(interval_complaint(interval)))
    } else if !is_time_range(start_time, end_time) {
        Some(HyperLiquidErrorView::InvalidTimeRange { start: start_time, end: end_time })
    } else {
        None
    }
}

/// The request for the candles of `coin` at `interval` between
/// `start_time` and `end_time`, or the first complaint about these values.
pub fn candle_snapshot_request(
    coin: &str,
    interval: &str,
    start_time: u64,
    end_time: u64,
) -> (result: Result<CandleSnapshotRequest, HyperLiquidError>)
    ensures
        match result {
            Ok(request) => candle_snapshot_fault(coin@, interval@, start_time, end_time) is None
                && request@ == (CandleSnapshotRequestView {
                request_type: REQUEST_TYPE@,
                req: CandleRequestView {
                    coin: coin@,
                    interval: interval@,
                    start_time,
                    end_time,
                },
            }),
            Err(error) => candle_snapshot_fault(coin@, interval@, start_time, end_time) == Some(
                error@,
            ),
        },
{
    match validate_coin_symbol(coin) {
        Ok(()) => {},
        Err(error) => {
            return Err(error);
        },
    }
    match validate_interval(interval) {
        Ok(()) => {},
        Err(error) => {
            return Err(error);
        },
    }
    match validate_time_range(start_time, end_time) {
        Ok(()) => {},
        Err(error) => {
            return Err(error);
        },
    }
    Ok(
        CandleSnapshotRequest {
            request_type: String::from_str(REQUEST_TYPE),
            req: CandleRequest {
                coin: String::from_str(coin),
                interval: String::from_str(interval),
                start_time,
                end_time,
            },
        },
    )
}

} // verus!
