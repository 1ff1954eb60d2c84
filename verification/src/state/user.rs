use vstd::prelude::*;
use solana_program::pubkey::Pubkey;

verus! {

/// A user's exposure in one market.
#[derive(Clone, Copy, Debug, PartialEq, Eq, Structural)]
pub struct MarketPosition {
    /// The market that the position is in.
    pub market_index: u64,
    /// The size: positive for long, negative for short, zero for none.
    pub base_asset_amount: i128,
    /// The market's cumulative funding rate, on the position's side, up to
    /// which funding has been settled.
    pub last_cumulative_funding_rate: i128,
    /// The time of the funding update up to which funding has been settled.
    pub last_funding_rate_ts: i64,
    /// Profit and loss that has been realised and not yet paid out.
    pub unsettled_pnl: i128,
}

/// A trader's account.
#[derive(Debug, PartialEq, Eq)]
pub struct User {
    /// Who may act for the account.
    pub authority: Pubkey,
    /// The positions, each in a market.
    pub positions: Vec<MarketPosition>,
}

} // verus!
