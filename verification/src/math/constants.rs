use vstd::prelude::*;

verus! {

/// Decimal places of a mark or oracle price.
pub const MARK_PRICE_DECIMALS: u32 = 10;

/// One unit of price: ten to the power of `MARK_PRICE_DECIMALS`.
pub const MARK_PRICE_PRECISION: u128 = 10_000_000_000;

/// `MARK_PRICE_PRECISION` as a signed number.
pub const MARK_PRICE_PRECISION_I128: i128 = 10_000_000_000;

/// One unit of a peg multiplier.
pub const PEG_PRECISION: u128 = 1_000;

/// One unit of a funding rate, relative to a price.
pub const FUNDING_PAYMENT_PRECISION: u128 = 10_000;

/// `FUNDING_PAYMENT_PRECISION` as a signed number.
pub const FUNDING_PAYMENT_PRECISION_I128: i128 = 10_000;

/// One unit of a cumulative funding rate: a price times a funding rate.
pub const FUNDING_RATE_PRECISION: u128 = 100_000_000_000_000;

/// What divides an amount in reserve precision to give it in quote precision.
pub const AMM_TO_QUOTE_PRECISION_RATIO_I128: i128 = 10_000_000;

/// What multiplies a pegged quote amount before it is divided by a base amount
/// to give a price: `MARK_PRICE_PRECISION / PEG_PRECISION`.
pub const PRICE_TO_PEG_PRECISION_RATIO: u128 = 10_000_000;

/// Seconds in an hour.
pub const ONE_HOUR: i128 = 3600;

/// Hours over which a funding rate is spread.
pub const FUNDING_WINDOW_HOURS: i128 = 24;

/// The price spread that drives funding is kept within the oracle's
/// time-weighted price divided by this: about three percent.
pub const MAX_SPREAD_DIVISOR: i128 = 33;

/// A confidence is at least the price's magnitude divided by this: a tenth of
/// a percent.
pub const CONFIDENCE_FLOOR_DIVISOR: u128 = 1000;

/// How the units hang together: a price is a peg times the ratio between
/// them, and a cumulative funding rate is a price times a funding rate.
pub proof fn lemma_precisions()
    ensures
        MARK_PRICE_PRECISION == MARK_PRICE_PRECISION_I128,
        FUNDING_PAYMENT_PRECISION == FUNDING_PAYMENT_PRECISION_I128,
        MARK_PRICE_PRECISION == PEG_PRECISION * PRICE_TO_PEG_PRECISION_RATIO,
        FUNDING_RATE_PRECISION == MARK_PRICE_PRECISION * FUNDING_PAYMENT_PRECISION,
{
}

} // verus!
