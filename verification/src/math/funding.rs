use vstd::prelude::*;
use vstd::arithmetic::div_mod::lemma_div_pos_is_pos;
use crate::error::ErrorCode;
use crate::math::casting::cast_to_i128;
use crate::math::constants::{
    FUNDING_PAYMENT_PRECISION_I128, FUNDING_RATE_PRECISION, FUNDING_WINDOW_HOURS,
    MAX_SPREAD_DIVISOR, ONE_HOUR,
};
use crate::math::fixed_point::{
    div_toward_zero, magnitude, mul_div, quotient_toward_zero, unsigned_abs,
};
use crate::state::user::MarketPosition;

verus! {

/// What a position of size `base` is owed when the cumulative funding rate on
/// its side has moved by `delta`: the product, in units of the rate, rounded
/// toward zero, and against the position. A long position pays when the rate
/// has risen and is paid when it has fallen; a short position the reverse.
pub open spec fn funding_payment_value(delta: int, base: int) -> int {
    -quotient_toward_zero(delta * base, FUNDING_RATE_PRECISION as int)
}

/// The payment owed to `position` now that the cumulative funding rate on its
/// side stands at `cumulative_funding_rate`. It fails where the rate's
/// movement, or the payment, leaves the signed 128-bit range.
pub open spec fn funding_payment(
    cumulative_funding_rate: i128,
    position: MarketPosition,
) -> Result<i128, ErrorCode> {
    let delta = cumulative_funding_rate - position.last_cumulative_funding_rate;
    let payment = funding_payment_value(delta, position.base_asset_amount as int);
    if delta < i128::MIN || delta > i128::MAX {
        Err(ErrorCode::MathError)
    } else if magnitude(payment) > i128::MAX {
        Err(ErrorCode::MathError)
    } else {
        Ok(payment as i128)
    }
}

proof fn lemma_magnitude_of_product(x: int, y: int)
    ensures
        magnitude(x) * magnitude(y) == magnitude(x * y),
        (x > 0) == (y > 0) ==> x * y >= 0,
        (x > 0) != (y > 0) ==> x * y <= 0,
{
    assert(magnitude(x) * magnitude(y) == magnitude(x * y)) by (nonlinear_arith)
        requires
            magnitude(x) == (if x < 0 { -x } else { x }),
            magnitude(y) == (if y < 0 { -y } else { y }),
            magnitude(x * y) == (if x * y < 0 { -(x * y) } else { x * y }),
    ;
    assert((x > 0) == (y > 0) ==> x * y >= 0) by (nonlinear_arith);
    assert((x > 0) != (y > 0) ==> x * y <= 0) by (nonlinear_arith);
}

/// The payment owed to `market_position` now that the cumulative funding rate
/// on its side stands at `amm_cumulative_funding_rate`.
pub fn calculate_funding_payment(
    amm_cumulative_funding_rate: i128,
    market_position: &MarketPosition,
) -> (r: Result<i128, ErrorCode>)
    ensures
        r == funding_payment(amm_cumulative_funding_rate, *market_position),
{
    let funding_rate_delta = match amm_cumulative_funding_rate.checked_sub(
        market_position.last_cumulative_funding_rate,
    ) {
        Some(delta) => delta,
        None => {
            return Err(ErrorCode::MathError);
        },
    };
    let base_asset_amount = market_position.base_asset_amount;
    proof {
        lemma_magnitude_of_product(funding_rate_delta as int, base_asset_amount as int);
        lemma_div_pos_is_pos(
            magnitude(funding_rate_delta * base_asset_amount),
            FUNDING_RATE_PRECISION as int,
        );
    }
    let wide_magnitude = match mul_div(
        unsigned_abs(funding_rate_delta),
        unsigned_abs(base_asset_amount),
        FUNDING_RATE_PRECISION,
    ) {
        Some(wide_magnitude) => wide_magnitude,
        None => {
            return Err(ErrorCode::MathError);
        },
    };
    let payment_magnitude = match cast_to_i128(wide_magnitude) {
        Ok(payment_magnitude) => payment_magnitude,
        Err(e) => {
            return Err(e);
        },
    };
    // Longs pay shorts where the rate has risen.
    if (funding_rate_delta > 0) == (base_asset_amount > 0) {
        Ok(-payment_magnitude)
    } else {
        Ok(payment_magnitude)
    }
}

/// How many funding periods make up the funding window, periods shorter than
/// an hour counting as an hour: a rate is paid in this many parts. It is zero
/// for a period longer than the window.
pub open spec fn period_adjustment(funding_period: i64) -> int {
    (FUNDING_WINDOW_HOURS * ONE_HOUR) / (if funding_period > ONE_HOUR {
        funding_period as int
    } else {
        ONE_HOUR as int
    })
}

/// The widest spread between mark and oracle that funding takes note of.
pub open spec fn max_price_spread(oracle_price_twap: i128) -> int {
    quotient_toward_zero(oracle_price_twap as int, MAX_SPREAD_DIVISOR as int)
}

/// The spread between the mark's and the oracle's time-weighted average
/// prices, kept between the widest spread and its negative.
pub open spec fn clamped_price_spread(mark_price_twap: int, oracle_price_twap: i128) -> int {
    let bound = max_price_spread(oracle_price_twap);
    let spread = mark_price_twap - oracle_price_twap;
    let capped = if spread < bound {
        spread
    } else {
        bound
    };
    if capped > -bound {
        capped
    } else {
        -bound
    }
}

/// `clamped_price_spread`, which fails where the mark price or the spread
/// leaves the signed 128-bit range.
pub open spec fn checked_clamped_price_spread(
    mark_price_twap: u128,
    oracle_price_twap: i128,
) -> Result<i128, ErrorCode> {
    if mark_price_twap > i128::MAX || mark_price_twap - oracle_price_twap > i128::MAX {
        Err(ErrorCode::MathError)
    } else {
        Ok(clamped_price_spread(mark_price_twap as int, oracle_price_twap) as i128)
    }
}

/// The funding rate of one period: the clamped spread in units of the funding
/// rate, divided toward zero into the period's share of the window. It fails
/// where an intermediate leaves the signed 128-bit range and for a period
/// longer than the window.
pub open spec fn funding_rate(
    mark_price_twap: u128,
    oracle_price_twap: i128,
    funding_period: i64,
) -> Result<i128, ErrorCode> {
    match checked_clamped_price_spread(mark_price_twap, oracle_price_twap) {
        Err(e) => Err(e),
        Ok(clamped) => {
            let scaled = clamped * FUNDING_PAYMENT_PRECISION_I128;
            if scaled < i128::MIN || scaled > i128::MAX || period_adjustment(funding_period)
                == 0 {
                Err(ErrorCode::MathError)
            } else {
                Ok(quotient_toward_zero(scaled, period_adjustment(funding_period)) as i128)
            }
        },
    }
}

/// The clamped spread is within the widest spread, whatever the prices; and
/// within a thirty-third of the oracle's price where that is not negative.
pub proof fn lemma_clamped_price_spread_bound(mark_price_twap: int, oracle_price_twap: i128)
    ensures
        magnitude(clamped_price_spread(mark_price_twap, oracle_price_twap)) <= magnitude(
            max_price_spread(oracle_price_twap),
        ),
        oracle_price_twap > -MAX_SPREAD_DIVISOR ==> magnitude(
            clamped_price_spread(mark_price_twap, oracle_price_twap),
        ) <= quotient_toward_zero(oracle_price_twap as int, MAX_SPREAD_DIVISOR as int),
{
}

/// The spread between the two time-weighted average prices, clamped.
pub fn calculate_clamped_price_spread(mark_price_twap: u128, oracle_price_twap: i128) -> (r:
    Result<i128, ErrorCode>)
    ensures
        r == checked_clamped_price_spread(mark_price_twap, oracle_price_twap),
        r matches Ok(clamped) ==> magnitude(clamped as int) <= magnitude(
            max_price_spread(oracle_price_twap),
        ),
        r matches Ok(clamped) ==> oracle_price_twap > -MAX_SPREAD_DIVISOR ==> magnitude(
            clamped as int,
        ) <= quotient_toward_zero(oracle_price_twap as int, MAX_SPREAD_DIVISOR as int),
{
    let mark_price_twap = match cast_to_i128(mark_price_twap) {
        Ok(mark_price_twap) => mark_price_twap,
        Err(e) => {
            return Err(e);
        },
    };
    let price_spread = match mark_price_twap.checked_sub(oracle_price_twap) {
        Some(price_spread) => price_spread,
        None => {
            return Err(ErrorCode::MathError);
        },
    };
    // Funding follows a divergence of up to three percent, and no further.
    let max_price_spread = div_toward_zero(oracle_price_twap, MAX_SPREAD_DIVISOR);
    let capped = if price_spread < max_price_spread {
        price_spread
    } else {
        max_price_spread
    };
    if capped > -max_price_spread {
        Ok(capped)
    } else {
        Ok(-max_price_spread)
    }
}

/// The funding rate of one period for the two time-weighted average prices.
pub fn calculate_funding_rate(
    mark_price_twap: u128,
    oracle_price_twap: i128,
    funding_period: i64,
) -> (r: Result<i128, ErrorCode>)
    ensures
        r == funding_rate(mark_price_twap, oracle_price_twap, funding_period),
{
    // A period of an hour pays a twenty-fourth of the spread: the shorter the
    // period, the smaller each payment.
    let period = if funding_period as i128 > ONE_HOUR {
        funding_period as i128
    } else {
        ONE_HOUR
    };
    let period_adjustment = (FUNDING_WINDOW_HOURS * ONE_HOUR) / period;
    let clamped_price_spread = match calculate_clamped_price_spread(
        mark_price_twap,
        oracle_price_twap,
    ) {
        Ok(clamped_price_spread) => clamped_price_spread,
        Err(e) => {
            return Err(e);
        },
    };
    let scaled = match clamped_price_spread.checked_mul(FUNDING_PAYMENT_PRECISION_I128) {
        Some(scaled) => scaled,
        None => {
            return Err(ErrorCode::MathError);
        },
    };
    if period_adjustment == 0 {
        return Err(ErrorCode::MathError);
    }
    proof {
        lemma_div_pos_is_pos(FUNDING_WINDOW_HOURS * ONE_HOUR, period as int);
    }
    Ok(div_toward_zero(scaled, period_adjustment))
}

} // verus!
