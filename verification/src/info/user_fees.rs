//! The fee rates that apply to a user.

use rust_decimal::Decimal;
use vstd::prelude::*;

use crate::common::{is_user_request_for, user_request, BasicUserRequest};
use crate::errors::HyperLiquidError;

verus! {

/// The request type of this endpoint.
pub const REQUEST_TYPE: &'static str = "userFees";

/// The volume of a user, the fee schedule, and the rates that follow for the user.
#[derive(Debug)]
pub struct UserFeesResponse {
    pub daily_user_vlm: Vec<DailyUserVlm>,
    pub fee_schedule: FeeSchedule,
    pub user_cross_rate: Decimal,
    pub user_add_rate: Decimal,
    pub user_spot_cross_rate: Decimal,
    pub user_spot_add_rate: Decimal,
    pub active_referral_discount: Decimal,
    pub trial: Option<String>,
    pub fee_trial_reward: Decimal,
    pub next_trial_available_timestamp: Option<u64>,
    pub staking_link: Option<String>,
    pub active_staking_discount: Option<ActiveStakingDiscount>,
}

/// The volume of one day.
#[derive(Debug)]
pub struct DailyUserVlm {
    pub date: String,
    pub user_cross: Decimal,
    pub user_add: Decimal,
    pub exchange: Decimal,
}

/// The base rates and the tiers that lower them.
#[derive(Debug)]
pub struct FeeSchedule {
    pub cross: Decimal,
    pub add: Decimal,
    pub spot_cross: Decimal,
    pub spot_add: Decimal,
    pub tiers: Tiers,
    pub referral_discount: Decimal,
    pub staking_discount_tiers: Vec<StakingDiscountTier>,
}

/// The tiers for takers and for market makers.
#[derive(Debug)]
pub struct Tiers {
    pub vip: Vec<VipTier>,
    pub mm: Vec<MmTier>,
}

/// The rates from a given volume on.
#[derive(Debug)]
pub struct VipTier {
    pub ntl_cutoff: Decimal,
    pub cross: Decimal,
    pub add: Decimal,
    pub spot_cross: Decimal,
    pub spot_add: Decimal,
}

/// The maker rate from a given share of the maker volume on.
#[derive(Debug)]
pub struct MmTier {
    pub maker_fraction_cutoff: Decimal,
    pub add: Decimal,
}

/// The discount from a given stake on.
#[derive(Debug)]
pub struct StakingDiscountTier {
    pub bps_of_max_supply: Decimal,
    pub discount: Decimal,
}

/// The staking discount that a user has.
#[derive(Debug)]
pub struct ActiveStakingDiscount {
    pub bps_of_max_supply: String,
    pub discount: String,
}

/// The request for the fee rates of `user`.
/// Nothing is to be sent for a user that is no Ethereum address.
pub fn user_fees_request(user: &str) -> (result: Result<BasicUserRequest, HyperLiquidError>)
    ensures
        is_user_request_for(result, REQUEST_TYPE@, user@),
{
    user_request(REQUEST_TYPE, user)
}

} // verus!
