use vstd::prelude::*;
use solana_program::pubkey::Pubkey;
use crate::state::oracle::OracleSource;

verus! {

/// The pricing curve of a market, as far as funding reads and writes it.
#[derive(Clone, Copy, Debug, PartialEq, Eq)]
pub struct AMM {
    /// The account that the oracle price is read from.
    pub oracle: Pubkey,
    /// The format of that account.
    pub oracle_source: OracleSource,
    /// The oracle's time-weighted average price as of the last funding update.
    pub last_oracle_price_twap: i128,
    /// The mark's time-weighted average price as of the last funding update.
    pub last_mark_price_twap: u128,
    /// The sum of the funding rates that long positions have been charged.
    pub cumulative_funding_rate_long: i128,
    /// The sum of the funding rates that short positions have been charged.
    pub cumulative_funding_rate_short: i128,
    /// The funding rate of the last update.
    pub last_funding_rate: i128,
    /// When funding was last updated, in seconds.
    pub last_funding_rate_ts: i64,
    /// Seconds between two funding updates.
    pub funding_period: i64,
}

/// One tradable instrument.
#[derive(Clone, Copy, Debug, PartialEq, Eq)]
pub struct Market {
    pub amm: AMM,
    /// The identifier that the next funding-rate record will bear.
    pub next_funding_rate_record_id: u64,
}

} // verus!
