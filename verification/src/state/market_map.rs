use vstd::prelude::*;
use std::collections::BTreeMap;
use crate::error::ErrorCode;
use crate::state::market::Market;

verus! {

/// The registry of markets, each under its index.
pub struct MarketMap(pub BTreeMap<u64, Market>);

impl View for MarketMap {
    type V = Map<u64, Market>;

    open spec fn view(&self) -> Map<u64, Market> {
        self.0@
    }
}

impl MarketMap {
    /// A registry that holds no market.
    pub fn new() -> (map: Self)
        ensures
            map@ == Map::<u64, Market>::empty(),
    {
        MarketMap(BTreeMap::new())
    }

    /// Puts `market` under `market_index`, in place of any market that was there.
    pub fn insert(&mut self, market_index: u64, market: Market)
        ensures
            final(self)@ == old(self)@.insert(market_index, market),
    {
        self.0.insert(market_index, market);
    }

    /// The market under `market_index`.
    pub fn get_ref(&self, market_index: &u64) -> (r: Result<&Market, ErrorCode>)
        ensures
            self@.contains_key(*market_index) ==> r == Ok::<&Market, ErrorCode>(
                &self@[*market_index],
            ),
            !self@.contains_key(*market_index) ==> r == Err::<&Market, ErrorCode>(
                ErrorCode::MarketNotFound,
            ),
    {
        match self.0.get(market_index) {
            Some(market) => Ok(market),
            None => Err(ErrorCode::MarketNotFound),
        }
    }
}

} // verus!
