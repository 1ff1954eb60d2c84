use vstd::prelude::*;
use solana_program::pubkey::Pubkey;
use crate::error::ErrorCode;
use crate::math::constants::AMM_TO_QUOTE_PRECISION_RATIO_I128;
use crate::math::fixed_point::{div_toward_zero, quotient_toward_zero};
use crate::math::funding::{
    calculate_funding_payment, calculate_funding_rate, funding_payment, funding_rate,
};
use crate::state::events::{FundingPaymentRecord, FundingRateRecord};
use crate::state::market::{Market, AMM};
use crate::state::market_map::MarketMap;
use crate::state::user::{MarketPosition, User};

verus! {

/// How long after its last funding update a market waits for the next. A
/// market whose last update fell on a multiple of its period waits one
/// period. One whose last update fell `delay` seconds after a multiple waits
/// until the next multiple, or, where `delay` is more than a third of the
/// period, until the one after. It fails where two periods overflow.
pub open spec fn next_update_wait_spec(funding_period: i64, last_funding_rate_ts: i64) -> Result<
    i64,
    ErrorCode,
> {
    if funding_period <= 1 {
        Ok(funding_period)
    } else {
        let delay = last_funding_rate_ts as int % funding_period as int;
        if delay == 0 {
            Ok(funding_period)
        } else if 2 * funding_period > i64::MAX {
            Err(ErrorCode::MathError)
        } else if delay > funding_period as int / 3 {
            Ok((2 * funding_period - delay) as i64)
        } else {
            Ok((funding_period - delay) as i64)
        }
    }
}

/// The wait is more than nothing and no more than two periods.
pub proof fn lemma_next_update_wait_window(funding_period: i64, last_funding_rate_ts: i64)
    requires
        funding_period > 1,
    ensures
        next_update_wait_spec(funding_period, last_funding_rate_ts) matches Ok(wait) ==> 0 < wait
            <= 2 * funding_period,
{
}

/// How long after its last funding update a market waits for the next.
pub fn next_update_wait(funding_period: i64, last_funding_rate_ts: i64) -> (r: Result<
    i64,
    ErrorCode,
>)
    ensures
        r == next_update_wait_spec(funding_period, last_funding_rate_ts),
        funding_period > 1 ==> (r matches Ok(wait) ==> 0 < wait <= 2 * funding_period),
{
    if funding_period <= 1 {
        return Ok(funding_period);
    }
    let last_update_delay = match last_funding_rate_ts.checked_rem_euclid(funding_period) {
        Some(last_update_delay) => last_update_delay,
        None => {
            return Err(ErrorCode::MathError);
        },
    };
    if last_update_delay == 0 {
        return Ok(funding_period);
    }
    let max_delay_for_next_period = funding_period / 3;
    let two_funding_periods = match funding_period.checked_mul(2) {
        Some(two_funding_periods) => two_funding_periods,
        None => {
            return Err(ErrorCode::MathError);
        },
    };
    let next_update_wait = if last_update_delay > max_delay_for_next_period {
        // Too late for the next multiple of the period: wait for the one after.
        two_funding_periods - last_update_delay
    } else {
        funding_period - last_update_delay
    };
    // A wait of more than two periods would be cut by one. None is that long.
    if next_update_wait > two_funding_periods {
        Ok(next_update_wait - funding_period)
    } else {
        Ok(next_update_wait)
    }
}

/// Whether a funding update is due at `now`: funding is not paused, the
/// oracle is not blocked, and the wait since the last update is over. It
/// fails where the time since the last update, or the wait, overflows.
pub open spec fn funding_update_due(
    amm: AMM,
    now: i64,
    funding_paused: bool,
    block_funding_rate_update: bool,
) -> Result<bool, ErrorCode> {
    match time_since_last_update_spec(amm, now) {
        Err(e) => Err(e),
        Ok(time_since_last_update) => match next_update_wait_spec(
            amm.funding_period,
            amm.last_funding_rate_ts,
        ) {
            Err(e) => Err(e),
            Ok(wait) => Ok(
                !funding_paused && !block_funding_rate_update && time_since_last_update >= wait,
            ),
        },
    }
}

/// Seconds from the last funding update to `now`. It fails where they overflow.
pub open spec fn time_since_last_update_spec(amm: AMM, now: i64) -> Result<i64, ErrorCode> {
    let time_since_last_update = now - amm.last_funding_rate_ts;
    if time_since_last_update < i64::MIN || time_since_last_update > i64::MAX {
        Err(ErrorCode::MathError)
    } else {
        Ok(time_since_last_update as i64)
    }
}

/// Seconds from the last funding update to `now`: the first thing that a
/// funding update works out, before the oracle is judged.
pub fn time_since_last_update(amm: &AMM, now: i64) -> (r: Result<i64, ErrorCode>)
    ensures
        r == time_since_last_update_spec(*amm, now),
{
    match now.checked_sub(amm.last_funding_rate_ts) {
        Some(time_since_last_update) => Ok(time_since_last_update),
        None => Err(ErrorCode::MathError),
    }
}

/// Whether a funding update of the market with this curve is due at `now`.
pub fn is_funding_update_due(
    amm: &AMM,
    now: i64,
    funding_paused: bool,
    block_funding_rate_update: bool,
) -> (r: Result<bool, ErrorCode>)
    ensures
        r == funding_update_due(*amm, now, funding_paused, block_funding_rate_update),
{
    let time_since_last_update = match time_since_last_update(amm, now) {
        Ok(time_since_last_update) => time_since_last_update,
        Err(e) => {
            return Err(e);
        },
    };
    // The next update falls on a multiple of the period.
    let next_update_wait = match next_update_wait(amm.funding_period, amm.last_funding_rate_ts) {
        Ok(next_update_wait) => next_update_wait,
        Err(e) => {
            return Err(e);
        },
    };
    Ok(
        !funding_paused && !block_funding_rate_update && time_since_last_update
            >= next_update_wait,
    )
}

/// `market` with its two time-weighted average prices brought up to date.
pub open spec fn with_price_twaps(
    market: Market,
    oracle_price_twap: i128,
    mark_price_twap: u128,
) -> Market {
    Market {
        amm: AMM {
            last_oracle_price_twap: oracle_price_twap,
            last_mark_price_twap: mark_price_twap,
            ..market.amm
        },
        ..market
    }
}

/// `market` after a funding update at `now`: the prices brought up to date,
/// each side's share added to its cumulative rate, the rate and the time
/// noted, and the next record's identifier moved on. It fails where a
/// cumulative rate or the identifier overflows.
pub open spec fn funded_market(
    market: Market,
    now: i64,
    funding_rate: i128,
    funding_rate_long: i128,
    funding_rate_short: i128,
    oracle_price_twap: i128,
    mark_price_twap: u128,
) -> Result<Market, ErrorCode> {
    let long = market.amm.cumulative_funding_rate_long + funding_rate_long;
    let short = market.amm.cumulative_funding_rate_short + funding_rate_short;
    if long < i128::MIN || long > i128::MAX || short < i128::MIN || short > i128::MAX
        || market.next_funding_rate_record_id == u64::MAX {
        Err(ErrorCode::MathError)
    } else {
        Ok(
            Market {
                amm: AMM {
                    last_oracle_price_twap: oracle_price_twap,
                    last_mark_price_twap: mark_price_twap,
                    cumulative_funding_rate_long: long as i128,
                    cumulative_funding_rate_short: short as i128,
                    last_funding_rate: funding_rate,
                    last_funding_rate_ts: now,
                    ..market.amm
                },
                next_funding_rate_record_id: (market.next_funding_rate_record_id + 1) as u64,
            },
        )
    }
}

/// The record of the funding update that took `before` to `after`.
pub open spec fn funding_rate_record(
    market_index: u64,
    before: Market,
    after: Market,
) -> FundingRateRecord {
    FundingRateRecord {
        ts: after.amm.last_funding_rate_ts,
        record_id: before.next_funding_rate_record_id,
        market_index,
        funding_rate: after.amm.last_funding_rate,
        cumulative_funding_rate_long: after.amm.cumulative_funding_rate_long,
        cumulative_funding_rate_short: after.amm.cumulative_funding_rate_short,
        mark_price_twap: after.amm.last_mark_price_twap,
        oracle_price_twap: after.amm.last_oracle_price_twap,
    }
}

/// What a funding update that is due comes to, once the split of the rate
/// between the sides is known: the market afterwards, and what is returned.
/// A failure, of the split or of the update, leaves the market as it was.
pub open spec fn funding_update_outcome(
    market_index: u64,
    market: Market,
    now: i64,
    funding_rate: i128,
    oracle_price_twap: i128,
    mark_price_twap: u128,
    split: Result<(i128, i128), ErrorCode>,
) -> (Market, Result<Option<FundingRateRecord>, ErrorCode>) {
    match split {
        Err(e) => (market, Err(e)),
        Ok((funding_rate_long, funding_rate_short)) => match funded_market(
            market,
            now,
            funding_rate,
            funding_rate_long,
            funding_rate_short,
            oracle_price_twap,
            mark_price_twap,
        ) {
            Err(e) => (market, Err(e)),
            Ok(after) => (after, Ok(Some(funding_rate_record(market_index, market, after)))),
        },
    }
}

/// Applies a funding update whose rate and split are known: brings the
/// market's prices up to date, adds each side's share to its cumulative rate,
/// notes the rate and the time, and returns the record that bears the
/// market's next identifier. On failure the market is as it was.
pub fn apply_funding_rate(
    market_index: u64,
    market: &mut Market,
    now: i64,
    funding_rate: i128,
    funding_rate_long: i128,
    funding_rate_short: i128,
    oracle_price_twap: i128,
    mark_price_twap: u128,
) -> (r: Result<FundingRateRecord, ErrorCode>)
    ensures
        match funded_market(
            *old(market),
            now,
            funding_rate,
            funding_rate_long,
            funding_rate_short,
            oracle_price_twap,
            mark_price_twap,
        ) {
            Err(e) => r == Err::<FundingRateRecord, ErrorCode>(e) && *final(market) == *old(
                market,
            ),
            Ok(after) => *final(market) == after && r == Ok::<FundingRateRecord, ErrorCode>(
                funding_rate_record(market_index, *old(market), after),
            ),
        },
{
    let cumulative_funding_rate_long = match market.amm.cumulative_funding_rate_long.checked_add(
        funding_rate_long,
    ) {
        Some(sum) => sum,
        None => {
            return Err(ErrorCode::MathError);
        },
    };
    let cumulative_funding_rate_short = match market.amm.cumulative_funding_rate_short.checked_add(
        funding_rate_short,
    ) {
        Some(sum) => sum,
        None => {
            return Err(ErrorCode::MathError);
        },
    };
    let record_id = market.next_funding_rate_record_id;
    let next_record_id = match record_id.checked_add(1) {
        Some(next) => next,
        None => {
            return Err(ErrorCode::MathError);
        },
    };
    market.amm.last_oracle_price_twap = oracle_price_twap;
    market.amm.last_mark_price_twap = mark_price_twap;
    market.amm.cumulative_funding_rate_long = cumulative_funding_rate_long;
    market.amm.cumulative_funding_rate_short = cumulative_funding_rate_short;
    market.amm.last_funding_rate = funding_rate;
    market.amm.last_funding_rate_ts = now;
    market.next_funding_rate_record_id = next_record_id;
    Ok(
        FundingRateRecord {
            ts: now,
            record_id,
            market_index,
            funding_rate,
            cumulative_funding_rate_long,
            cumulative_funding_rate_short,
            mark_price_twap,
            oracle_price_twap,
        },
    )
}

/// Updates the funding rate of `market` at `now`, if an update is due.
///
/// `block_funding_rate_update` is the guard's verdict on the oracle, and the
/// two prices are the time-weighted averages as of `now`. Where funding is
/// paused, the oracle blocked or the wait not over, nothing happens and
/// `None` is returned. Otherwise the rate is computed from the two prices,
/// `calculate_funding_rate_long_short` is asked once, for the market with its
/// prices brought up to date and that rate, how the rate falls on the two
/// sides, and the update is applied and its record returned. On failure the
/// market is as it was.
pub fn update_funding_rate<F>(
    market_index: u64,
    market: &mut Market,
    now: i64,
    funding_paused: bool,
    block_funding_rate_update: bool,
    oracle_price_twap: i128,
    mark_price_twap: u128,
    calculate_funding_rate_long_short: F,
) -> (r: Result<Option<FundingRateRecord>, ErrorCode>) where
    F: Fn(&Market, i128) -> Result<(i128, i128), ErrorCode>,

    requires
        funding_update_due(old(market).amm, now, funding_paused, block_funding_rate_update) == Ok::<
            bool,
            ErrorCode,
        >(true) ==> (funding_rate(
            mark_price_twap,
            oracle_price_twap,
            old(market).amm.funding_period,
        ) matches Ok(rate) ==> call_requires(
            calculate_funding_rate_long_short,
            (&with_price_twaps(*old(market), oracle_price_twap, mark_price_twap), rate),
        )),
    ensures
        match funding_update_due(
            old(market).amm,
            now,
            funding_paused,
            block_funding_rate_update,
        ) {
            Err(e) => r == Err::<Option<FundingRateRecord>, ErrorCode>(e) && *final(market)
                == *old(market),
            Ok(false) => r == Ok::<Option<FundingRateRecord>, ErrorCode>(None) && *final(market)
                == *old(market),
            Ok(true) => match funding_rate(
                mark_price_twap,
                oracle_price_twap,
                old(market).amm.funding_period,
            ) {
                Err(e) => r == Err::<Option<FundingRateRecord>, ErrorCode>(e) && *final(market)
                    == *old(market),
                Ok(rate) => exists|split: Result<(i128, i128), ErrorCode>|
                    {
                        &&& #[trigger] call_ensures(
                            calculate_funding_rate_long_short,
                            (&with_price_twaps(*old(market), oracle_price_twap, mark_price_twap), rate),
                            split,
                        )
                        &&& (*final(market), r) == funding_update_outcome(
                            market_index,
                            *old(market),
                            now,
                            rate,
                            oracle_price_twap,
                            mark_price_twap,
                            split,
                        )
                    },
            },
        },
{
    let due = match is_funding_update_due(
        &market.amm,
        now,
        funding_paused,
        block_funding_rate_update,
    ) {
        Ok(due) => due,
        Err(e) => {
            return Err(e);
        },
    };
    if !due {
        return Ok(None);
    }
    let funding_rate = match calculate_funding_rate(
        mark_price_twap,
        oracle_price_twap,
        market.amm.funding_period,
    ) {
        Ok(funding_rate) => funding_rate,
        Err(e) => {
            return Err(e);
        },
    };
    let mut repriced = *market;
    repriced.amm.last_oracle_price_twap = oracle_price_twap;
    repriced.amm.last_mark_price_twap = mark_price_twap;
    let split = calculate_funding_rate_long_short(&repriced, funding_rate);
    assert(call_ensures(
        calculate_funding_rate_long_short,
        (&with_price_twaps(*old(market), oracle_price_twap, mark_price_twap), funding_rate),
        split,
    ));
    let (funding_rate_long, funding_rate_short) = match split {
        Ok(sides) => sides,
        Err(e) => {
            return Err(e);
        },
    };
    match apply_funding_rate(
        market_index,
        market,
        now,
        funding_rate,
        funding_rate_long,
        funding_rate_short,
        oracle_price_twap,
        mark_price_twap,
    ) {
        Ok(record) => Ok(Some(record)),
        Err(e) => Err(e),
    }
}

/// The cumulative funding rate of the side that a position of size
/// `base_asset_amount` is on.
pub open spec fn applicable_funding_rate(amm: AMM, base_asset_amount: i128) -> i128 {
    if base_asset_amount > 0 {
        amm.cumulative_funding_rate_long
    } else {
        amm.cumulative_funding_rate_short
    }
}

/// What settling funding does to one position: nothing, or the position
/// brought up to date together with the payment that did so, or a failure. Nothing is done for
/// a position of size zero, and for one whose side's cumulative rate is where
/// the position last saw it. Otherwise the payment owed is restated in quote
/// precision and added to the unsettled profit and loss, and the position
/// notes the rate and the time of the market's last update.
pub open spec fn settle_position(position: MarketPosition, markets: Map<u64, Market>) -> Result<
    Option<(MarketPosition, i128)>,
    ErrorCode,
> {
    if position.base_asset_amount == 0 {
        Ok(None)
    } else if !markets.contains_key(position.market_index) {
        Err(ErrorCode::MarketNotFound)
    } else {
        let amm = markets[position.market_index].amm;
        let rate = applicable_funding_rate(amm, position.base_asset_amount);
        if rate == position.last_cumulative_funding_rate {
            Ok(None)
        } else {
            match funding_payment(rate, position) {
                Err(e) => Err(e),
                Ok(owed) => {
                    let payment = quotient_toward_zero(
                        owed as int,
                        AMM_TO_QUOTE_PRECISION_RATIO_I128 as int,
                    );
                    let pnl = position.unsettled_pnl + payment;
                    if pnl < i128::MIN || pnl > i128::MAX {
                        Err(ErrorCode::MathError)
                    } else {
                        Ok(
                            Some(
                                (
                                    MarketPosition {
                                        last_cumulative_funding_rate: rate,
                                        last_funding_rate_ts: amm.last_funding_rate_ts,
                                        unsettled_pnl: pnl as i128,
                                        ..position
                                    },
                                    payment as i128,
                                ),
                            ),
                        )
                    }
                },
            }
        }
    }
}

/// A position after funding has been settled into it.
pub open spec fn settled_position(
    position: MarketPosition,
    markets: Map<u64, Market>,
) -> MarketPosition {
    match settle_position(position, markets) {
        Ok(Some((settled, _))) => settled,
        _ => position,
    }
}

/// The positions after funding has been settled into each.
pub open spec fn settled_positions(
    positions: Seq<MarketPosition>,
    markets: Map<u64, Market>,
) -> Seq<MarketPosition> {
    Seq::new(positions.len(), |i: int| settled_position(positions[i], markets))
}

/// The failure of the first position that cannot be settled, if there is one.
pub open spec fn first_settlement_error(
    positions: Seq<MarketPosition>,
    markets: Map<u64, Market>,
) -> Option<ErrorCode>
    decreases positions.len(),
{
    if positions.len() == 0 {
        None
    } else {
        match first_settlement_error(positions.drop_last(), markets) {
            Some(e) => Some(e),
            None => match settle_position(positions.last(), markets) {
                Err(e) => Some(e),
                Ok(_) => None,
            },
        }
    }
}

/// The record of a `payment` settled into `position`, as it was before, in
/// `market`.
pub open spec fn funding_payment_record(
    position: MarketPosition,
    market: Market,
    payment: i128,
    user_authority: Pubkey,
    user_key: Pubkey,
    now: i64,
) -> FundingPaymentRecord {
    FundingPaymentRecord {
        ts: now,
        user_authority,
        user: user_key,
        market_index: position.market_index,
        funding_payment: payment,
        user_last_cumulative_funding: position.last_cumulative_funding_rate,
        user_last_funding_rate_ts: position.last_funding_rate_ts,
        amm_cumulative_funding_long: market.amm.cumulative_funding_rate_long,
        amm_cumulative_funding_short: market.amm.cumulative_funding_rate_short,
        base_asset_amount: position.base_asset_amount,
    }
}

/// The records of the payments settled into the positions, in the positions'
/// order: one for each position that a payment was settled into.
pub open spec fn settlement_records(
    positions: Seq<MarketPosition>,
    markets: Map<u64, Market>,
    user_authority: Pubkey,
    user_key: Pubkey,
    now: i64,
) -> Seq<FundingPaymentRecord>
    decreases positions.len(),
{
    if positions.len() == 0 {
        Seq::empty()
    } else {
        let earlier = settlement_records(
            positions.drop_last(),
            markets,
            user_authority,
            user_key,
            now,
        );
        match settle_position(positions.last(), markets) {
            Ok(Some((_, payment))) => earlier.push(
                funding_payment_record(
                    positions.last(),
                    markets[positions.last().market_index],
                    payment,
                    user_authority,
                    user_key,
                    now,
                ),
            ),
            _ => earlier,
        }
    }
}

/// A failure among the first positions is the failure of them all.
proof fn lemma_first_error_extends(
    positions: Seq<MarketPosition>,
    markets: Map<u64, Market>,
    upto: int,
)
    requires
        0 <= upto <= positions.len(),
        first_settlement_error(positions.subrange(0, upto), markets) is Some,
    ensures
        first_settlement_error(positions, markets) == first_settlement_error(
            positions.subrange(0, upto),
            markets,
        ),
    decreases positions.len() - upto,
{
    if upto == positions.len() {
        assert(positions.subrange(0, upto) =~= positions);
    } else {
        let longer = positions.subrange(0, upto + 1);
        assert(longer.drop_last() =~= positions.subrange(0, upto));
        lemma_first_error_extends(positions, markets, upto + 1);
    }
}

/// What `settle_position_funding` returns for `position`: `settle_position`
/// with the payment written out as its record.
pub open spec fn settle_position_with_record(
    position: MarketPosition,
    markets: Map<u64, Market>,
    user_authority: Pubkey,
    user_key: Pubkey,
    now: i64,
) -> Result<Option<(MarketPosition, FundingPaymentRecord)>, ErrorCode> {
    match settle_position(position, markets) {
        Err(e) => Err(e),
        Ok(None) => Ok(None),
        Ok(Some((settled, payment))) => Ok(
            Some(
                (
                    settled,
                    funding_payment_record(
                        position,
                        markets[position.market_index],
                        payment,
                        user_authority,
                        user_key,
                        now,
                    ),
                ),
            ),
        ),
    }
}

/// Settles funding into one position: `None` where there is nothing to
/// settle, else the position brought up to date and the record of the payment.
pub fn settle_position_funding(
    position: &MarketPosition,
    user_authority: &Pubkey,
    user_key: &Pubkey,
    market_map: &MarketMap,
    now: i64,
) -> (r: Result<Option<(MarketPosition, FundingPaymentRecord)>, ErrorCode>)
    ensures
        r == settle_position_with_record(
            *position,
            market_map@,
            *user_authority,
            *user_key,
            now,
        ),
{
    if position.base_asset_amount == 0 {
        return Ok(None);
    }
    let market = match market_map.get_ref(&position.market_index) {
        Ok(market) => market,
        Err(e) => {
            return Err(e);
        },
    };
    let amm_cumulative_funding_rate = if position.base_asset_amount > 0 {
        market.amm.cumulative_funding_rate_long
    } else {
        market.amm.cumulative_funding_rate_short
    };
    if amm_cumulative_funding_rate == position.last_cumulative_funding_rate {
        return Ok(None);
    }
    let owed = match calculate_funding_payment(amm_cumulative_funding_rate, position) {
        Ok(owed) => owed,
        Err(e) => {
            return Err(e);
        },
    };
    let market_funding_payment = div_toward_zero(owed, AMM_TO_QUOTE_PRECISION_RATIO_I128);
    let unsettled_pnl = match position.unsettled_pnl.checked_add(market_funding_payment) {
        Some(unsettled_pnl) => unsettled_pnl,
        None => {
            return Err(ErrorCode::MathError);
        },
    };
    let record = FundingPaymentRecord {
        ts: now,
        user_authority: *user_authority,
        user: *user_key,
        market_index: position.market_index,
        funding_payment: market_funding_payment,
        user_last_cumulative_funding: position.last_cumulative_funding_rate,
        user_last_funding_rate_ts: position.last_funding_rate_ts,
        amm_cumulative_funding_long: market.amm.cumulative_funding_rate_long,
        amm_cumulative_funding_short: market.amm.cumulative_funding_rate_short,
        base_asset_amount: position.base_asset_amount,
    };
    // The rate seen and the payment for it go into the position together.
    let settled = MarketPosition {
        market_index: position.market_index,
        base_asset_amount: position.base_asset_amount,
        last_cumulative_funding_rate: amm_cumulative_funding_rate,
        last_funding_rate_ts: market.amm.last_funding_rate_ts,
        unsettled_pnl,
    };
    Ok(Some((settled, record)))
}

/// Settles funding into each of `positions` in turn: the positions brought up
/// to date and the records of the payments, or the first failure.
fn settle_positions(
    positions: &Vec<MarketPosition>,
    user_authority: &Pubkey,
    user_key: &Pubkey,
    market_map: &MarketMap,
    now: i64,
) -> (r: Result<(Vec<MarketPosition>, Vec<FundingPaymentRecord>), ErrorCode>)
    ensures
        match first_settlement_error(positions@, market_map@) {
            Some(e) => r == Err::<(Vec<MarketPosition>, Vec<FundingPaymentRecord>), ErrorCode>(e),
            None => r matches Ok((settled, records)) && settled@ == settled_positions(
                positions@,
                market_map@,
            ) && records@ == settlement_records(
                positions@,
                market_map@,
                *user_authority,
                *user_key,
                now,
            ),
        },
{
    let mut settled: Vec<MarketPosition> = Vec::new();
    let mut records: Vec<FundingPaymentRecord> = Vec::new();
    let mut i: usize = 0;
    while i < positions.len()
        invariant
            i <= positions.len(),
            first_settlement_error(positions@.subrange(0, i as int), market_map@) is None,
            settled@ == settled_positions(positions@.subrange(0, i as int), market_map@),
            records@ == settlement_records(
                positions@.subrange(0, i as int),
                market_map@,
                *user_authority,
                *user_key,
                now,
            ),
        decreases positions.len() - i,
    {
        let position = positions[i];
        let ghost done = positions@.subrange(0, i as int);
        let ghost next = positions@.subrange(0, i + 1);
        proof {
            assert(next.drop_last() =~= done);
            assert(next.last() == position);
        }
        match settle_position_funding(&position, user_authority, user_key, market_map, now) {
            Err(e) => {
                proof {
                    lemma_first_error_extends(positions@, market_map@, i + 1);
                }
                return Err(e);
            },
            Ok(None) => {
                settled.push(position);
            },
            Ok(Some((brought_up, record))) => {
                records.push(record);
                settled.push(brought_up);
            },
        }
        proof {
            assert(settled@ =~= settled_positions(next, market_map@));
        }
        i = i + 1;
    }
    proof {
        assert(positions@.subrange(0, i as int) =~= positions@);
    }
    Ok((settled, records))
}

/// Where every position can be settled, none fails; and the other way round.
pub proof fn lemma_first_settlement_error(
    positions: Seq<MarketPosition>,
    markets: Map<u64, Market>,
)
    ensures
        first_settlement_error(positions, markets) is None <==> forall|i: int|
            0 <= i < positions.len() ==> (#[trigger] settle_position(positions[i], markets)) is Ok,
    decreases positions.len(),
{
    if positions.len() > 0 {
        let earlier = positions.drop_last();
        lemma_first_settlement_error(earlier, markets);
        assert forall|i: int| 0 <= i < earlier.len() implies earlier[i] == positions[i] by {}
        if first_settlement_error(positions, markets) is None {
            assert forall|i: int| 0 <= i < positions.len() implies (#[trigger] settle_position(
                positions[i],
                markets,
            )) is Ok by {
                if i < positions.len() - 1 {
                    assert(earlier[i] == positions[i]);
                }
            }
        }
        if forall|i: int|
            0 <= i < positions.len() ==> (#[trigger] settle_position(positions[i], markets)) is Ok {
            assert forall|i: int| 0 <= i < earlier.len() implies (#[trigger] settle_position(
                earlier[i],
                markets,
            )) is Ok by {
                assert(earlier[i] == positions[i]);
            }
            assert(settle_position(positions[positions.len() - 1], markets) is Ok);
        }
    }
}

/// A position that funding has been settled into has nothing left to settle.
pub proof fn lemma_settled_position_is_settled(position: MarketPosition, markets: Map<u64, Market>)
    requires
        settle_position(position, markets) is Ok,
    ensures
        settle_position(settled_position(position, markets), markets) == Ok::<
            Option<(MarketPosition, i128)>,
            ErrorCode,
        >(None),
        settled_position(settled_position(position, markets), markets) == settled_position(
            position,
            markets,
        ),
{
}

/// Positions that nothing is left to settle into give no record.
proof fn lemma_no_records(
    positions: Seq<MarketPosition>,
    markets: Map<u64, Market>,
    user_authority: Pubkey,
    user_key: Pubkey,
    now: i64,
)
    requires
        forall|i: int|
            0 <= i < positions.len() ==> #[trigger] settle_position(positions[i], markets) == Ok::<
                Option<(MarketPosition, i128)>,
                ErrorCode,
            >(None),
    ensures
        settlement_records(positions, markets, user_authority, user_key, now)
            == Seq::<FundingPaymentRecord>::empty(),
    decreases positions.len(),
{
    if positions.len() > 0 {
        let earlier = positions.drop_last();
        assert forall|i: int| 0 <= i < earlier.len() implies #[trigger] settle_position(
            earlier[i],
            markets,
        ) == Ok::<Option<(MarketPosition, i128)>, ErrorCode>(None) by {
            assert(earlier[i] == positions[i]);
        }
        lemma_no_records(earlier, markets, user_authority, user_key, now);
        assert(settle_position(positions[positions.len() - 1], markets) == Ok::<
            Option<(MarketPosition, i128)>,
            ErrorCode,
        >(None));
    }
}

/// Settling is idempotent: once funding has been settled into a user's
/// positions, settling again against the same markets, at whatever time,
/// succeeds, changes no position and gives no record.
pub proof fn lemma_settlement_is_idempotent(
    positions: Seq<MarketPosition>,
    markets: Map<u64, Market>,
    user_authority: Pubkey,
    user_key: Pubkey,
    later: i64,
)
    requires
        first_settlement_error(positions, markets) is None,
    ensures
        first_settlement_error(settled_positions(positions, markets), markets) is None,
        settled_positions(settled_positions(positions, markets), markets) == settled_positions(
            positions,
            markets,
        ),
        settlement_records(
            settled_positions(positions, markets),
            markets,
            user_authority,
            user_key,
            later,
        ) == Seq::<FundingPaymentRecord>::empty(),
{
    let once = settled_positions(positions, markets);
    lemma_first_settlement_error(positions, markets);
    assert forall|i: int| 0 <= i < once.len() implies #[trigger] settle_position(
        once[i],
        markets,
    ) == Ok::<Option<(MarketPosition, i128)>, ErrorCode>(None) by {
        assert(settle_position(positions[i], markets) is Ok);
        lemma_settled_position_is_settled(positions[i], markets);
    }
    lemma_first_settlement_error(once, markets);
    lemma_no_records(once, markets, user_authority, user_key, later);
    assert(settled_positions(once, markets) =~= once);
}

/// Settles into each of the user's positions the funding that its market has
/// charged since the position last saw it, and returns the records of the
/// payments, in the positions' order. A position of size zero, and one whose
/// market has charged nothing since, is left alone and gets no record. On
/// failure the user is as it was.
pub fn settle_funding_payment(
    user: &mut User,
    user_key: &Pubkey,
    market_map: &MarketMap,
    now: i64,
) -> (r: Result<Vec<FundingPaymentRecord>, ErrorCode>)
    ensures
        final(user).authority == old(user).authority,
        match first_settlement_error(old(user).positions@, market_map@) {
            Some(e) => r == Err::<Vec<FundingPaymentRecord>, ErrorCode>(e) && *final(user) == *old(
                user,
            ),
            None => final(user).positions@ == settled_positions(
                old(user).positions@,
                market_map@,
            ) && (r matches Ok(records) && records@ == settlement_records(
                old(user).positions@,
                market_map@,
                old(user).authority,
                *user_key,
                now,
            )),
        },
{
    match settle_positions(&user.positions, &user.authority, user_key, market_map, now) {
        Err(e) => Err(e),
        Ok((settled, records)) => {
            user.positions = settled;
            Ok(records)
        },
    }
}

} // verus!
