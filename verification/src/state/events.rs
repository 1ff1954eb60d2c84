use vstd::prelude::*;
use solana_program::pubkey::Pubkey;

verus! {

/// The audit record of one funding update of a market.
#[derive(Clone, Copy, Debug, PartialEq, Eq)]
pub struct FundingRateRecord {
    pub ts: i64,
    pub record_id: u64,
    pub market_index: u64,
    pub funding_rate: i128,
    pub cumulative_funding_rate_long: i128,
    pub cumulative_funding_rate_short: i128,
    pub mark_price_twap: u128,
    pub oracle_price_twap: i128,
}

/// The audit record of one funding payment settled into a position.
#[derive(Clone, Copy, Debug, PartialEq, Eq)]
pub struct FundingPaymentRecord {
    pub ts: i64,
    pub user_authority: Pubkey,
    pub user: Pubkey,
    pub market_index: u64,
    pub funding_payment: i128,
    pub user_last_cumulative_funding: i128,
    pub user_last_funding_rate_ts: i64,
    pub amm_cumulative_funding_long: i128,
    pub amm_cumulative_funding_short: i128,
    pub base_asset_amount: i128,
}

} // verus!
