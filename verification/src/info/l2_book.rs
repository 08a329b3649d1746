//! The order book of a coin.

use rust_decimal::Decimal;
use vstd::prelude::*;

use crate::errors::{
    coin_complaint, is_coin_symbol, validate_coin_symbol, HyperLiquidError, HyperLiquidErrorView,
};

verus! {

/// The request type of this endpoint.
pub const REQUEST_TYPE: &'static str = "l2Book";

/// The body of an order book request.
#[derive(Debug)]
pub struct L2BookRequest {
    /// The discriminator, sent as `type`.
    pub request_type: String,
    pub coin: String,
    /// To how many significant figures levels are merged, if at all.
    pub n_sig_figs: Option<u64>,
    /// The mantissa that goes with five significant figures.
    pub mantissa: Option<u64>,
}

/// An `L2BookRequest` with its texts as character sequences.
pub struct L2BookRequestView {
    pub request_type: Seq<char>,
    pub coin: Seq<char>,
    pub n_sig_figs: Option<u64>,
    pub mantissa: Option<u64>,
}

impl View for L2BookRequest {
    type V = L2BookRequestView;

    open spec fn view(&self) -> L2BookRequestView {
        L2BookRequestView {
            request_type: self.request_type@,
            coin: self.coin@,
            n_sig_figs: self.n_sig_figs,
            mantissa: self.mantissa,
        }
    }
}

/// The order book of a coin: the bids and the asks, each a list of levels.
#[derive(Debug)]
pub struct L2BookResponse {
    pub coin: String,
    pub time: u64,
    pub levels: Vec<Vec<Level>>,
}

/// One price level of an order book.
#[derive(Debug)]
pub struct Level {
    /// The price of the level.
    pub px: Decimal,
    /// The size on offer at this price.
    pub sz: Decimal,
    /// How many orders make up the level.
    pub n: u32,
}

/// The request for the order book of `coin` at full precision, or the
/// complaint about `coin` if it is no coin symbol.
pub fn l2_book_request(coin: &str) -> (result: Result<L2BookRequest, HyperLiquidError>)
    ensures
        match result {
            Ok(request) => is_coin_symbol(coin@) && request@ == (L2BookRequestView {
                request_type: REQUEST_TYPE@,
                coin: coin@,
                n_sig_figs: None,
                mantissa: None,
            }),
            Err(error) => !is_coin_symbol(coin@) && error@ == HyperLiquidErrorView::InvalidCoin(
                coin_complaint(coin@),
            ),
        },
{
    match validate_coin_symbol(coin) {
        Ok(()) => Ok(
            L2BookRequest {
                request_type: String::from_str(REQUEST_TYPE),
                coin: String::from_str(coin),
                n_sig_figs: None,
                mantissa: None,
            },
        ),
        Err(error) => Err(error),
    }
}

} // verus!
