use vstd::prelude::*;
use vstd::slice::slice_subrange;
use solana_program::account_info::AccountInfo;
use solana_program::pubkey::Pubkey;
use switchboard_v2::AggregatorAccountData;
use crate::error::ErrorCode;
use crate::math::casting::cast_to_i64;
use crate::math::constants::{CONFIDENCE_FLOOR_DIVISOR, MARK_PRICE_PRECISION_I128};
use crate::math::fixed_point::{
    lemma_to_mark_precision_sign, magnitude, scale_to_mark_precision,
    scale_to_mark_precision_spec, unsigned_abs,
};
use crate::state::account::account_data;

verus! {

/// The format of the account that a market's oracle price is read from.
#[derive(Clone, Copy, Debug, PartialEq, Eq, Structural)]
pub enum OracleSource {
    /// A Pyth price account: a signed mantissa and a power-of-ten exponent.
    Pyth,
    /// A Switchboard aggregator account: decimal results with a quorum.
    Switchboard,
    /// No account at all: the asset is the quote asset, whose price is one.
    QuoteAsset,
}

impl Default for OracleSource {
    fn default() -> (source: Self)
        ensures
            source == OracleSource::Pyth,
    {
        OracleSource::Pyth
    }
}

/// A price observation in the clearing house's own units, whatever the source.
#[derive(Clone, Copy, Debug, PartialEq, Eq, Structural)]
pub struct OraclePriceData {
    /// The price, in units of `MARK_PRICE_PRECISION`.
    pub price: i128,
    /// The width of the source's uncertainty about the price, in the same units.
    pub confidence: u128,
    /// Slots elapsed since the source's report; negative where the report
    /// claims a slot that has not come yet.
    pub delay: i64,
    /// Whether enough of the source's own oracles answered.
    pub has_sufficient_number_of_data_points: bool,
}

impl Default for OraclePriceData {
    fn default() -> (data: Self)
        ensures
            data == (OraclePriceData {
                price: 0,
                confidence: 0,
                delay: 0,
                has_sufficient_number_of_data_points: false,
            }),
    {
        OraclePriceData {
            price: 0,
            confidence: 0,
            delay: 0,
            has_sufficient_number_of_data_points: false,
        }
    }
}

/// What the normalizer reads of a Pyth price account.
#[derive(Clone, Copy, Debug, PartialEq, Eq, Structural)]
pub struct PythPrice {
    /// The aggregate price, in units of ten to the power of `expo`.
    pub price: i64,
    /// The aggregate confidence interval, in the same units.
    pub conf: u64,
    /// The exponent; only its magnitude is used.
    pub expo: i32,
    /// The slot for which the aggregate price is valid.
    pub valid_slot: u64,
}

/// A decimal number as Switchboard writes it: `mantissa` over ten to the
/// power of `scale`.
#[derive(Clone, Copy, Debug, PartialEq, Eq, Structural)]
pub struct Decimal {
    pub mantissa: i128,
    pub scale: u32,
}

/// What the normalizer reads of a Switchboard aggregator account.
#[derive(Clone, Copy, Debug, PartialEq, Eq, Structural)]
pub struct SwitchboardRound {
    /// The median of the latest confirmed round.
    pub result: Decimal,
    /// The standard deviation of the answers accepted in that round.
    pub std_deviation: Decimal,
    /// The slot at which that round was opened.
    pub round_open_slot: u64,
    /// How many oracles answered in that round.
    pub num_success: u32,
    /// How many answers the aggregator asks for before a round counts.
    pub min_oracle_results: u32,
}

/// Bytes of a Pyth price account that the reader looks at.
pub const PYTH_PRICE_ACCOUNT_LEN: usize = 3312;

/// `PYTH_PRICE_ACCOUNT_LEN` counted in 64-bit words.
const PYTH_PRICE_ACCOUNT_WORDS: usize = 414;

/// Bytes of a Switchboard aggregator account: its tag and its record.
pub const SWITCHBOARD_AGGREGATOR_ACCOUNT_LEN: usize = 3851;

/// Slots between a report and now, each slot first taken as a signed number.
/// A report from a slot that has not come yet gives a negative delay, which
/// is handed on as it is: whoever judges the report's age sees that it has
/// none.
pub open spec fn slot_delay(clock_slot: u64, reported_slot: u64) -> Result<i64, ErrorCode> {
    if clock_slot > i64::MAX || reported_slot > i64::MAX {
        Err(ErrorCode::MathError)
    } else {
        Ok((clock_slot - reported_slot) as i64)
    }
}

/// The observation that a Pyth price gives at `clock_slot`: price and
/// confidence restated with the exponent's magnitude as their decimal places.
pub open spec fn pyth_oracle_price(feed: PythPrice, clock_slot: u64) -> Result<
    OraclePriceData,
    ErrorCode,
> {
    let decimals = magnitude(feed.expo as int) as nat;
    match (
        scale_to_mark_precision_spec(feed.price as int, decimals),
        scale_to_mark_precision_spec(feed.conf as int, decimals),
        slot_delay(clock_slot, feed.valid_slot),
    ) {
        (Ok(price), Ok(confidence), Ok(delay)) => Ok(
            OraclePriceData {
                price,
                confidence: confidence as u128,
                delay,
                has_sufficient_number_of_data_points: true,
            },
        ),
        _ => Err(ErrorCode::MathError),
    }
}

/// A Switchboard decimal in units of price.
pub open spec fn switchboard_decimal_value(decimal: Decimal) -> Result<i128, ErrorCode> {
    scale_to_mark_precision_spec(decimal.mantissa as int, decimal.scale as nat)
}

/// The least confidence that goes with `price`: a tenth of a percent of its
/// magnitude, rounded down.
pub open spec fn confidence_floor(price: i128) -> u128 {
    (magnitude(price as int) / CONFIDENCE_FLOOR_DIVISOR as int) as u128
}

/// The confidence for a price whose source reports `deviation`: the largest
/// number there is for a negative deviation, which no honest source reports;
/// otherwise the deviation, raised to the floor.
pub open spec fn switchboard_confidence(price: i128, deviation: i128) -> u128 {
    if deviation < 0 {
        u128::MAX
    } else if deviation >= confidence_floor(price) {
        deviation as u128
    } else {
        confidence_floor(price)
    }
}

/// The observation that a Switchboard round gives at `clock_slot`.
pub open spec fn switchboard_oracle_price(round: SwitchboardRound, clock_slot: u64) -> Result<
    OraclePriceData,
    ErrorCode,
> {
    match (
        switchboard_decimal_value(round.result),
        switchboard_decimal_value(round.std_deviation),
        slot_delay(clock_slot, round.round_open_slot),
    ) {
        (Ok(price), Ok(deviation), Ok(delay)) => Ok(
            OraclePriceData {
                price,
                confidence: switchboard_confidence(price, deviation),
                delay,
                has_sufficient_number_of_data_points: round.num_success
                    >= round.min_oracle_results,
            },
        ),
        _ => Err(ErrorCode::MathError),
    }
}

/// The observation for the quote asset itself: a price of one, known exactly
/// and now.
pub open spec fn quote_asset_price() -> OraclePriceData {
    OraclePriceData {
        price: MARK_PRICE_PRECISION_I128,
        confidence: 1,
        delay: 0,
        has_sufficient_number_of_data_points: true,
    }
}

/// The price that `pyth_client::cast` finds in the bytes of a Pyth price
/// account, its numbers taken as little-endian. Nothing is said of what it
/// is for given bytes: the account's layout is Pyth's.
pub uninterp spec fn pyth_price_in(data: Seq<u8>) -> PythPrice;

/// The latest confirmed round that `AggregatorAccountData::new` finds in the
/// bytes of a Switchboard aggregator account, its numbers taken as
/// little-endian; `None` where the account's tag is not an aggregator's.
/// Nothing is said of what it is for given bytes: the account's layout is
/// Switchboard's.
pub uninterp spec fn switchboard_round_in(data: Seq<u8>) -> Option<SwitchboardRound>;

/// The observation of a round that was looked for in an account: that of the
/// round found, or the failure to find one.
pub open spec fn loaded_switchboard_price(
    loaded: Option<SwitchboardRound>,
    clock_slot: u64,
) -> Result<OraclePriceData, ErrorCode> {
    match loaded {
        Some(round) => switchboard_oracle_price(round, clock_slot),
        None => Err(ErrorCode::UnableToLoadOracle),
    }
}

/// The observation at `clock_slot` of a Pyth price account that holds `data`:
/// that of the price in the first `PYTH_PRICE_ACCOUNT_LEN` bytes, and
/// `UnableToLoadOracle` where there are fewer.
pub open spec fn pyth_price_of_data(data: Seq<u8>, clock_slot: u64) -> Result<
    OraclePriceData,
    ErrorCode,
> {
    if data.len() < PYTH_PRICE_ACCOUNT_LEN {
        Err(ErrorCode::UnableToLoadOracle)
    } else {
        pyth_oracle_price(
            pyth_price_in(data.subrange(0, PYTH_PRICE_ACCOUNT_LEN as int)),
            clock_slot,
        )
    }
}

/// The observation at `clock_slot` of a Switchboard aggregator account that
/// holds `data`: that of the round in it, and `UnableToLoadOracle` where the
/// data has not an aggregator's length or tag.
pub open spec fn switchboard_price_of_data(data: Seq<u8>, clock_slot: u64) -> Result<
    OraclePriceData,
    ErrorCode,
> {
    if data.len() != SWITCHBOARD_AGGREGATOR_ACCOUNT_LEN {
        Err(ErrorCode::UnableToLoadOracle)
    } else {
        loaded_switchboard_price(switchboard_round_in(data), clock_slot)
    }
}

/// The observation at `clock_slot` of a Pyth price account of which `read`
/// was read: `UnableToLoadOracle` where nothing could be.
pub open spec fn pyth_price_of_account(read: Option<Seq<u8>>, clock_slot: u64) -> Result<
    OraclePriceData,
    ErrorCode,
> {
    match read {
        Some(data) => pyth_price_of_data(data, clock_slot),
        None => Err(ErrorCode::UnableToLoadOracle),
    }
}

/// The observation at `clock_slot` of a Switchboard aggregator account of
/// which `read` was read: `UnableToLoadOracle` where nothing could be.
pub open spec fn switchboard_price_of_account(
    read: Option<Seq<u8>>,
    clock_slot: u64,
) -> Result<OraclePriceData, ErrorCode> {
    match read {
        Some(data) => switchboard_price_of_data(data, clock_slot),
        None => Err(ErrorCode::UnableToLoadOracle),
    }
}

/// The confidence of a Switchboard observation is never less than a tenth of
/// a percent of the price's magnitude, and it is the largest number there is
/// where the deviation that the source reports comes out negative.
pub proof fn lemma_switchboard_confidence_floor(round: SwitchboardRound, clock_slot: u64)
    ensures
        switchboard_oracle_price(round, clock_slot) matches Ok(data) ==> {
            &&& data.confidence >= magnitude(data.price as int) / CONFIDENCE_FLOOR_DIVISOR as int
            &&& switchboard_decimal_value(round.std_deviation) matches Ok(deviation)
            &&& deviation < 0 ==> data.confidence == u128::MAX
            &&& deviation >= 0 ==> data.confidence >= deviation
        },
{
}

/// The magnitude of an exponent.
fn exponent_magnitude(expo: i32) -> (decimals: u32)
    ensures
        decimals == magnitude(expo as int),
{
    if expo >= 0 {
        expo as u32
    } else if expo == i32::MIN {
        0x8000_0000u32
    } else {
        (-expo) as u32
    }
}

/// Slots between a report and now.
fn checked_slot_delay(clock_slot: u64, reported_slot: u64) -> (r: Result<i64, ErrorCode>)
    ensures
        r == slot_delay(clock_slot, reported_slot),
{
    let now = match cast_to_i64(clock_slot) {
        Ok(now) => now,
        Err(e) => {
            return Err(e);
        },
    };
    let reported = match cast_to_i64(reported_slot) {
        Ok(reported) => reported,
        Err(e) => {
            return Err(e);
        },
    };
    Ok(now - reported)
}

/// Restates a Switchboard decimal in units of price.
pub fn convert_switchboard_decimal(switchboard_decimal: &Decimal) -> (r: Result<i128, ErrorCode>)
    ensures
        r == switchboard_decimal_value(*switchboard_decimal),
{
    scale_to_mark_precision(switchboard_decimal.mantissa, switchboard_decimal.scale)
}

/// The observation that a Pyth price gives at `clock_slot`.
pub fn normalize_pyth_price(feed: &PythPrice, clock_slot: u64) -> (r: Result<
    OraclePriceData,
    ErrorCode,
>)
    ensures
        r == pyth_oracle_price(*feed, clock_slot),
{
    let decimals = exponent_magnitude(feed.expo);
    let price = match scale_to_mark_precision(feed.price as i128, decimals) {
        Ok(price) => price,
        Err(e) => {
            return Err(e);
        },
    };
    let confidence = match scale_to_mark_precision(feed.conf as i128, decimals) {
        Ok(confidence) => confidence,
        Err(e) => {
            return Err(e);
        },
    };
    let delay = match checked_slot_delay(clock_slot, feed.valid_slot) {
        Ok(delay) => delay,
        Err(e) => {
            return Err(e);
        },
    };
    proof {
        lemma_to_mark_precision_sign(feed.conf as int, decimals as nat);
    }
    Ok(
        OraclePriceData {
            price,
            confidence: confidence as u128,
            delay,
            has_sufficient_number_of_data_points: true,
        },
    )
}

/// The observation that a Switchboard round gives at `clock_slot`.
pub fn normalize_switchboard_round(round: &SwitchboardRound, clock_slot: u64) -> (r: Result<
    OraclePriceData,
    ErrorCode,
>)
    ensures
        r == switchboard_oracle_price(*round, clock_slot),
        r matches Ok(observed) ==> observed.confidence >= confidence_floor(observed.price),
{
    let price = match convert_switchboard_decimal(&round.result) {
        Ok(price) => price,
        Err(e) => {
            return Err(e);
        },
    };
    let deviation = match convert_switchboard_decimal(&round.std_deviation) {
        Ok(deviation) => deviation,
        Err(e) => {
            return Err(e);
        },
    };
    // A standard deviation is never negative: one that is marks the report
    // as not to be trusted at all.
    let confidence = if deviation < 0 {
        u128::MAX
    } else {
        let price_10bps = unsigned_abs(price) / CONFIDENCE_FLOOR_DIVISOR;
        let reported = deviation as u128;
        if reported >= price_10bps {
            reported
        } else {
            price_10bps
        }
    };
    let delay = match checked_slot_delay(clock_slot, round.round_open_slot) {
        Ok(delay) => delay,
        Err(e) => {
            return Err(e);
        },
    };
    Ok(
        OraclePriceData {
            price,
            confidence,
            delay,
            has_sufficient_number_of_data_points: round.num_success >= round.min_oracle_results,
        },
    )
}

/// The price in the Pyth price account whose bytes are `data`, as
/// `pyth_client::cast` lays `pyth_client::Price` over them. `cast` looks at
/// the part of a slice that is aligned for the record and fails where that
/// part is shorter than the record, so the bytes are first copied into
/// storage of 64-bit words, which is so aligned. Each number is then taken
/// as little-endian, as the account stores it, so that the same bytes give
/// the same price on every machine: that much is claimed, and no more.
#[verifier::external_body]
fn read_pyth_price(data: &[u8]) -> (feed: PythPrice)
    requires
        data@.len() == PYTH_PRICE_ACCOUNT_LEN,
    ensures
        feed == pyth_price_in(data@),
{
    let mut words = [0u64; PYTH_PRICE_ACCOUNT_WORDS];
    bytemuck::cast_slice_mut::<u64, u8>(&mut words).copy_from_slice(data);
    let price = pyth_client::cast::<pyth_client::Price>(bytemuck::cast_slice::<u64, u8>(&words));
    PythPrice {
        price: i64::from_le(price.agg.price),
        conf: u64::from_le(price.agg.conf),
        expo: i32::from_le(price.expo),
        valid_slot: u64::from_le(price.valid_slot),
    }
}

/// The latest confirmed round of the Switchboard aggregator whose account
/// holds `data`, as `AggregatorAccountData::new` reads it; `None` where the
/// account's tag is not an aggregator's. `new` takes an account, so the bytes
/// are handed to it as the data of one made for the call. It fails on data
/// shorter than the tag and on a record of any length but its own: the length
/// asked for here is the one on which it does not. Each number is taken as
/// little-endian, as the account stores it, so that the same bytes give the
/// same round on every machine: that much is claimed, and no more.
#[verifier::external_body]
fn read_switchboard_round(data: Vec<u8>) -> (round: Option<SwitchboardRound>)
    requires
        data@.len() == SWITCHBOARD_AGGREGATOR_ACCOUNT_LEN,
    ensures
        round == switchboard_round_in(data@),
{
    let mut data = data;
    let mut lamports: u64 = 0;
    let key = Pubkey::new_from_array([0u8; 32]);
    let account = AccountInfo::new(&key, false, false, &mut lamports, &mut data, &key, false, 0);
    let aggregator = AggregatorAccountData::new(&account).ok()?;
    let round = aggregator.latest_confirmed_round;
    let (result, deviation) = (round.result, round.std_deviation);
    Some(SwitchboardRound {
        result: Decimal { mantissa: i128::from_le(result.mantissa), scale: u32::from_le(result.scale) },
        std_deviation: Decimal { mantissa: i128::from_le(deviation.mantissa), scale: u32::from_le(deviation.scale) },
        round_open_slot: u64::from_le(round.round_open_slot),
        num_success: u32::from_le(round.num_success),
        min_oracle_results: u32::from_le(aggregator.min_oracle_results),
    })
}

/// The price observation at `clock_slot` of the Pyth price account whose
/// bytes are `data`. Data too short for a price gives `UnableToLoadOracle`;
/// longer data is read from its start.
pub fn pyth_price_from_data(data: &[u8], clock_slot: u64) -> (r: Result<
    OraclePriceData,
    ErrorCode,
>)
    ensures
        r == pyth_price_of_data(data@, clock_slot),
{
    if data.len() < PYTH_PRICE_ACCOUNT_LEN {
        return Err(ErrorCode::UnableToLoadOracle);
    }
    let feed = read_pyth_price(slice_subrange(data, 0, PYTH_PRICE_ACCOUNT_LEN));
    normalize_pyth_price(&feed, clock_slot)
}

/// The price observation at `clock_slot` of the Switchboard aggregator
/// account whose bytes are `data`. Data of any length but an aggregator's
/// gives `UnableToLoadOracle`, and so does a tag that is not an aggregator's.
pub fn switchboard_price_from_data(data: Vec<u8>, clock_slot: u64) -> (r: Result<
    OraclePriceData,
    ErrorCode,
>)
    ensures
        r == switchboard_price_of_data(data@, clock_slot),
        r matches Ok(observed) ==> observed.confidence >= confidence_floor(observed.price),
{
    if data.len() != SWITCHBOARD_AGGREGATOR_ACCOUNT_LEN {
        return Err(ErrorCode::UnableToLoadOracle);
    }
    match read_switchboard_round(data) {
        None => Err(ErrorCode::UnableToLoadOracle),
        Some(round) => normalize_switchboard_round(&round, clock_slot),
    }
}

/// The price observation of a Pyth price account at `clock_slot`: that of
/// the bytes that the account holds when it is read. An account that cannot
/// be read gives `UnableToLoadOracle`.
pub fn get_pyth_price(price_oracle: &AccountInfo, clock_slot: u64) -> (r: Result<
    OraclePriceData,
    ErrorCode,
>)
    ensures
        exists|read: Option<Seq<u8>>| r == #[trigger] pyth_price_of_account(read, clock_slot),
        clock_slot > i64::MAX ==> r is Err,
{
    match account_data(price_oracle) {
        None => {
            assert(pyth_price_of_account(None, clock_slot) == Err::<OraclePriceData, ErrorCode>(
                ErrorCode::UnableToLoadOracle,
            ));
            Err(ErrorCode::UnableToLoadOracle)
        },
        Some(data) => {
            let r = pyth_price_from_data(data.as_slice(), clock_slot);
            assert(r == pyth_price_of_account(Some(data@), clock_slot));
            r
        },
    }
}

/// The price observation of a Switchboard aggregator account at
/// `clock_slot`: that of the bytes that the account holds when it is read.
/// An account that cannot be read gives `UnableToLoadOracle`.
pub fn get_switchboard_price(price_oracle: &AccountInfo, clock_slot: u64) -> (r: Result<
    OraclePriceData,
    ErrorCode,
>)
    ensures
        exists|read: Option<Seq<u8>>|
            r == #[trigger] switchboard_price_of_account(read, clock_slot),
        r matches Ok(observed) ==> observed.confidence >= confidence_floor(observed.price),
        clock_slot > i64::MAX ==> r is Err,
{
    match account_data(price_oracle) {
        None => {
            assert(switchboard_price_of_account(None, clock_slot) == Err::<
                OraclePriceData,
                ErrorCode,
            >(ErrorCode::UnableToLoadOracle));
            Err(ErrorCode::UnableToLoadOracle)
        },
        Some(data) => {
            let ghost bytes = data@;
            let r = switchboard_price_from_data(data, clock_slot);
            assert(r == switchboard_price_of_account(Some(bytes), clock_slot));
            r
        },
    }
}

/// The price observation of a market's oracle at `clock_slot`, read as the
/// market's source says. The quote asset needs no account: its price is one.
pub fn get_oracle_price(
    oracle_source: &OracleSource,
    price_oracle: &AccountInfo,
    clock_slot: u64,
) -> (r: Result<OraclePriceData, ErrorCode>)
    ensures
        match *oracle_source {
            OracleSource::Pyth => exists|read: Option<Seq<u8>>|
                r == #[trigger] pyth_price_of_account(read, clock_slot),
            OracleSource::Switchboard => {
                &&& exists|read: Option<Seq<u8>>|
                    r == #[trigger] switchboard_price_of_account(read, clock_slot)
                &&& r matches Ok(observed) ==> observed.confidence >= confidence_floor(
                    observed.price,
                )
            },
            OracleSource::QuoteAsset => r == Ok::<OraclePriceData, ErrorCode>(quote_asset_price()),
        },
{
    match oracle_source {
        OracleSource::Pyth => get_pyth_price(price_oracle, clock_slot),
        OracleSource::Switchboard => get_switchboard_price(price_oracle, clock_slot),
        OracleSource::QuoteAsset => Ok(
            OraclePriceData {
                price: MARK_PRICE_PRECISION_I128,
                confidence: 1,
                delay: 0,
                has_sufficient_number_of_data_points: true,
            },
        ),
    }
}

} // verus!
