//! The details of a vault.

use rust_decimal::Decimal;
use vstd::prelude::*;

use crate::errors::{
    address_complaint, is_ethereum_address, validate_ethereum_address, HyperLiquidError,
    HyperLiquidErrorView,
};

verus! {

/// The request type of this endpoint.
pub const REQUEST_TYPE: &'static str = "vaultDetails";

/// The body of a vault details request.
#[derive(Debug)]
pub struct VaultDetailsRequest {
    /// The discriminator, sent as `type`.
    pub request_type: String,
    pub vault_address: String,
}

/// A `VaultDetailsRequest` with its texts as character sequences.
pub struct VaultDetailsRequestView {
    pub request_type: Seq<char>,
    pub vault_address: Seq<char>,
}

impl View for VaultDetailsRequest {
    type V = VaultDetailsRequestView;

    open spec fn view(&self) -> VaultDetailsRequestView {
        VaultDetailsRequestView {
            request_type: self.request_type@,
            vault_address: self.vault_address@,
        }
    }
}

/// The details of a vault, if the address is one.
pub type VaultDetailsResponse = Option<VaultDetails>;

/// A vault: who leads it, who follows it, and how it has done.
#[derive(Debug)]
pub struct VaultDetails {
    pub name: String,
    pub vault_address: String,
    pub leader: String,
    pub description: String,
    pub portfolio: Vec<(String, PortfolioData)>,
    pub apr: Decimal,
    pub follower_state: Option<serde_json::Value>,
    pub leader_fraction: Decimal,
    pub leader_commission: Decimal,
    pub followers: Vec<Follower>,
    pub max_distributable: Decimal,
    pub max_withdrawable: Decimal,
    pub is_closed: bool,
    pub relationship: Relationship,
    pub allow_deposits: bool,
    pub always_close_on_withdraw: bool,
}

/// Account value and profit over time, and the volume traded.
#[derive(Debug)]
pub struct PortfolioData {
    pub account_value_history: Vec<HistoryEntry>,
    pub pnl_history: Vec<HistoryEntry>,
    pub vlm: Decimal,
}

/// A point in time and the value at that time.
#[derive(Debug)]
pub struct HistoryEntry(pub u64, pub Decimal);

/// One follower of a vault.
#[derive(Debug)]
pub struct Follower {
    pub user: String,
    pub vault_equity: Decimal,
    pub pnl: Decimal,
    pub all_time_pnl: Decimal,
    pub days_following: u32,
    pub vault_entry_time: u64,
    pub lockup_until: u64,
}

/// How a vault relates to other vaults.
#[derive(Debug)]
pub struct Relationship {
    pub relationship_type: String,
}

/// The request for the details of the vault at `vault_address`, or the
/// complaint about the address if it is no Ethereum address.
pub fn vault_details_request(vault_address: &str) -> (result: Result<
    VaultDetailsRequest,
    HyperLiquidError,
>)
    ensures
        match result {
            Ok(request) => is_ethereum_address(vault_address@) && request@ == (
            VaultDetailsRequestView {
                request_type: REQUEST_TYPE@,
                vault_address: vault_address@,
            }),
            Err(error) => !is_ethereum_address(vault_address@) && error@
                == HyperLiquidErrorView::InvalidAddress(address_complaint(vault_address@)),
        },
{
    match validate_ethereum_address(vault_address) {
        Ok(()) => Ok(
            VaultDetailsRequest {
                request_type: String::from_str(REQUEST_TYPE),
                vault_address: String::from_str(vault_address),
            },
        ),
        Err(error) => Err(error),
    }
}

} // verus!
