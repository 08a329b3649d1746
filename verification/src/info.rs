//! The endpoints of the info API. Each module holds the request of one
//! endpoint, with the checks that come before it, and the shape of the
//! response.

/// Mid prices of all trading pairs.
pub mod all_mids;
/// Candles of a coin over a time range.
pub mod candle_snapshot;
/// Staking delegations of a user.
pub mod delegations;
/// History of a user's delegations.
pub mod delegator_history;
/// Staking rewards of a user.
pub mod delegator_rewards;
/// Summary of a user's staking.
pub mod delegator_summary;
/// Open orders of a user in full detail.
pub mod frontend_open_orders;
/// Past orders of a user.
pub mod historical_orders;
/// Order book of a coin.
pub mod l2_book;
/// Highest builder fee that a user has approved.
pub mod max_builder_fee;
/// Open orders of a user.
pub mod open_orders;
/// Status of one order.
pub mod order_status;
/// Perpetuals exchanges.
pub mod perp_dexs;
/// Perpetuals universe and perpetuals state of a user.
pub mod perpetuals;
/// Portfolio history of a user.
pub mod portfolio;
/// Referral state of a user.
pub mod referral;
/// Sub-accounts of a user.
pub mod sub_accounts;
/// Fee rates of a user.
pub mod user_fees;
/// Latest fills of a user.
pub mod user_fills;
/// Fills of a user in a time range.
pub mod user_fills_by_time;
/// Request allowance of a user.
pub mod user_rate_limit;
/// Role of an address.
pub mod user_role;
/// Fills of the slices of TWAP orders.
pub mod user_twap_slice_fills;
/// Vault holdings of a user.
pub mod user_vault_equities;
/// Details of a vault.
pub mod vault_details;
