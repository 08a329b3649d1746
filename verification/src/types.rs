//! Types that several endpoints share.

use rust_decimal::Decimal;
use vstd::prelude::*;

verus! {

/// The exact decimal number of `rust_decimal`. Prices, sizes and fees
/// arrive as JSON strings and are kept in this type, never in a float.
#[verifier::external_type_specification]
#[verifier::external_body]
pub struct ExDecimal(Decimal);

/// A `Decimal` is copied bit by bit, so its clone is the number itself.
pub assume_specification[ <Decimal as Clone>::clone ](number: &Decimal) -> (copy: Decimal)
    ensures
        copy == *number,
;

/// A JSON value of `serde_json` of whatever shape, kept as it came.
#[verifier::external_type_specification]
#[verifier::external_body]
pub struct ExJsonValue(serde_json::Value);

/// The state of an order.
#[derive(Debug, Clone)]
pub enum OrderState {
    Filled,
    Open,
    Canceled,
    Triggered,
    Rejected,
    MarginCanceled,
    ReduceOnlyRejected,
    /// Any state that this client does not know.
    Unknown,
}

impl OrderState {
    /// The name of the state as the API writes it; `unknown` for a state
    /// that this client does not know.
    pub open spec fn wire_name(self) -> Seq<char> {
        match self {
            OrderState::Filled => "filled"@,
            OrderState::Open => "open"@,
            OrderState::Canceled => "canceled"@,
            OrderState::Triggered => "triggered"@,
            OrderState::Rejected => "rejected"@,
            OrderState::MarginCanceled => "marginCanceled"@,
            OrderState::ReduceOnlyRejected => "reduceOnlyRejected"@,
            OrderState::Unknown => "unknown"@,
        }
    }

    /// The name of the state as the API writes it.
    pub fn as_str(&self) -> (name: &'static str)
        ensures
            name@ == self.wire_name(),
    {
        match self {
            OrderState::Filled => "filled",
            OrderState::Open => "open",
            OrderState::Canceled => "canceled",
            OrderState::Triggered => "triggered",
            OrderState::Rejected => "rejected",
            OrderState::MarginCanceled => "marginCanceled",
            OrderState::ReduceOnlyRejected => "reduceOnlyRejected",
            OrderState::Unknown => "unknown",
        }
    }

    /// The name of the state as an owned string.
    pub fn to_string(&self) -> (name: String)
        ensures
            name@ == self.wire_name(),
    {
        String::from_str(self.as_str())
    }
}

/// An order, as the order status, historical orders and open orders
/// endpoints return it.
#[derive(Debug, Clone)]
pub struct Order {
    /// The trading pair symbol, such as `BTC`.
    pub coin: String,
    /// The side: `A` for ask, `B` for bid.
    pub side: String,
    /// The limit price.
    pub limit_px: Decimal,
    /// The size.
    pub sz: Decimal,
    /// The order id.
    pub oid: u64,
    /// When the order was placed, in milliseconds since the Unix epoch.
    pub timestamp: u64,
    /// The trigger condition of a conditional order.
    pub trigger_condition: String,
    /// Whether this is a trigger order.
    pub is_trigger: bool,
    /// The trigger price of a conditional order.
    pub trigger_px: Decimal,
    /// The ids of the child orders of a compound order.
    pub children: Vec<u64>,
    /// Whether this is a take-profit or stop-loss order of a position.
    pub is_position_tpsl: bool,
    /// Whether the order may only reduce a position.
    pub reduce_only: bool,
    /// The order type, such as `limit`.
    pub order_type: String,
    /// The size the order was placed with.
    pub orig_sz: Decimal,
    /// The time in force, such as `Gtc`.
    pub tif: Option<String>,
    /// The client order id.
    pub cloid: Option<String>,
}

} // verus!
