use clearing_house::error::ErrorCode;
use clearing_house::state::oracle::{
    convert_switchboard_decimal, get_oracle_price, get_pyth_price, get_switchboard_price,
    normalize_pyth_price, normalize_switchboard_round, pyth_price_from_data,
    switchboard_price_from_data, Decimal, OraclePriceData, OracleSource, PythPrice,
    SwitchboardRound, PYTH_PRICE_ACCOUNT_LEN, SWITCHBOARD_AGGREGATOR_ACCOUNT_LEN,
};
use solana_program::account_info::AccountInfo;
use solana_program::pubkey::Pubkey;
use switchboard_v2::decimal::SwitchboardDecimal;
use switchboard_v2::AggregatorAccountData;

const AGGREGATOR_TAG: [u8; 8] = [217, 230, 65, 101, 201, 162, 27, 125];

fn pyth_account_data(price: i64, conf: u64, expo: i32, valid_slot: u64) -> Vec<u8> {
    let mut data: Vec<u8> = vec![0u8; PYTH_PRICE_ACCOUNT_LEN];
    data[20..24].copy_from_slice(&expo.to_le_bytes());
    data[40..48].copy_from_slice(&valid_slot.to_le_bytes());
    data[208..216].copy_from_slice(&price.to_le_bytes());
    data[216..224].copy_from_slice(&conf.to_le_bytes());
    data
}

fn aggregator_account_data(round: &SwitchboardRound) -> Vec<u8> {
    let mut aggregator: AggregatorAccountData = bytemuck::Zeroable::zeroed();
    aggregator.min_oracle_results = round.min_oracle_results;
    aggregator.latest_confirmed_round.num_success = round.num_success;
    aggregator.latest_confirmed_round.round_open_slot = round.round_open_slot;
    aggregator.latest_confirmed_round.result =
        SwitchboardDecimal::new(round.result.mantissa, round.result.scale);
    aggregator.latest_confirmed_round.std_deviation =
        SwitchboardDecimal::new(round.std_deviation.mantissa, round.std_deviation.scale);
    let mut data: Vec<u8> = AGGREGATOR_TAG.to_vec();
    data.extend_from_slice(bytemuck::bytes_of(&aggregator));
    data
}

fn price_through_account(
    source: OracleSource,
    data: &mut Vec<u8>,
    clock_slot: u64,
) -> Result<OraclePriceData, ErrorCode> {
    let key = Pubkey::new_from_array([3u8; 32]);
    let owner = Pubkey::new_from_array([4u8; 32]);
    let mut lamports: u64 = 0;
    let account = AccountInfo::new(&key, false, false, &mut lamports, data, &owner, false, 0);
    get_oracle_price(&source, &account, clock_slot)
}

fn sample_round() -> SwitchboardRound {
    SwitchboardRound {
        result: Decimal { mantissa: 123_456, scale: 3 },
        std_deviation: Decimal { mantissa: 5, scale: 1 },
        round_open_slot: 90,
        num_success: 5,
        min_oracle_results: 3,
    }
}

#[test]
fn pyth_account_length_is_the_size_of_a_price() {
    assert_eq!(PYTH_PRICE_ACCOUNT_LEN, std::mem::size_of::<pyth_client::Price>());
    assert_eq!(PYTH_PRICE_ACCOUNT_LEN % 8, 0);
    assert!(std::mem::align_of::<pyth_client::Price>() <= 8);
}

#[test]
fn switchboard_account_length_is_the_tag_and_the_size_of_an_aggregator() {
    assert_eq!(
        SWITCHBOARD_AGGREGATOR_ACCOUNT_LEN,
        AGGREGATOR_TAG.len() + std::mem::size_of::<AggregatorAccountData>()
    );
    assert_eq!(std::mem::align_of::<AggregatorAccountData>(), 1);
}

#[test]
fn same_bytes_give_the_same_observation() {
    let pyth = pyth_account_data(-77, 5, -9, 1_000);
    assert_eq!(pyth_price_from_data(&pyth, 1_001), pyth_price_from_data(&pyth.clone(), 1_001));
    let aggregator = aggregator_account_data(&sample_round());
    assert_eq!(
        switchboard_price_from_data(aggregator.clone(), 95),
        switchboard_price_from_data(aggregator, 95)
    );
}

#[test]
fn default_source_is_pyth() {
    assert_eq!(OracleSource::default(), OracleSource::Pyth);
}

#[test]
fn default_observation_is_all_zero() {
    let data = OraclePriceData::default();
    assert_eq!(data.price, 0);
    assert_eq!(data.confidence, 0);
    assert_eq!(data.delay, 0);
    assert!(!data.has_sufficient_number_of_data_points);
}

#[test]
fn pyth_price_with_fewer_decimals_is_multiplied() {
    let feed = PythPrice { price: 4_000_000_000, conf: 1_000_000, expo: -8, valid_slot: 90 };
    assert_eq!(
        normalize_pyth_price(&feed, 100),
        Ok(OraclePriceData {
            price: 400_000_000_000,
            confidence: 100_000_000,
            delay: 10,
            has_sufficient_number_of_data_points: true,
        })
    );
}

#[test]
fn pyth_price_with_more_decimals_is_divided_toward_zero() {
    let feed = PythPrice { price: -123_456_789_012_345, conf: 199, expo: -12, valid_slot: 0 };
    assert_eq!(
        normalize_pyth_price(&feed, 7),
        Ok(OraclePriceData {
            price: -1_234_567_890_123,
            confidence: 1,
            delay: 7,
            has_sufficient_number_of_data_points: true,
        })
    );
}

#[test]
fn pyth_price_at_the_clearing_house_precision_is_kept() {
    let feed = PythPrice { price: i64::MIN, conf: u64::MAX, expo: -10, valid_slot: 5 };
    assert_eq!(
        normalize_pyth_price(&feed, 5),
        Ok(OraclePriceData {
            price: i64::MIN as i128,
            confidence: u64::MAX as u128,
            delay: 0,
            has_sufficient_number_of_data_points: true,
        })
    );
}

#[test]
fn pyth_exponent_counts_by_its_magnitude() {
    let negative = PythPrice { price: 25, conf: 1, expo: -8, valid_slot: 1 };
    let positive = PythPrice { price: 25, conf: 1, expo: 8, valid_slot: 1 };
    assert_eq!(normalize_pyth_price(&negative, 2), normalize_pyth_price(&positive, 2));
    assert_eq!(normalize_pyth_price(&negative, 2).unwrap().price, 2_500);
}

#[test]
fn pyth_exponent_beyond_128_bits_is_a_math_error() {
    let widest = PythPrice { price: i64::MAX, conf: 1, expo: -38, valid_slot: 1 };
    assert_eq!(normalize_pyth_price(&widest, 2).unwrap().price, 0);
    let too_wide = PythPrice { price: 1, conf: 1, expo: -39, valid_slot: 1 };
    assert_eq!(normalize_pyth_price(&too_wide, 2), Err(ErrorCode::MathError));
    let least = PythPrice { price: 1, conf: 1, expo: i32::MIN, valid_slot: 1 };
    assert_eq!(normalize_pyth_price(&least, 2), Err(ErrorCode::MathError));
}

#[test]
fn pyth_slots_beyond_the_signed_range_are_a_math_error() {
    let feed = PythPrice { price: 1, conf: 1, expo: -8, valid_slot: 1 };
    assert_eq!(normalize_pyth_price(&feed, i64::MAX as u64 + 1), Err(ErrorCode::MathError));
    assert_eq!(normalize_pyth_price(&feed, i64::MAX as u64).unwrap().delay, i64::MAX - 1);
    let late = PythPrice { price: 1, conf: 1, expo: -8, valid_slot: u64::MAX };
    assert_eq!(normalize_pyth_price(&late, 1), Err(ErrorCode::MathError));
}

#[test]
fn pyth_report_from_a_later_slot_has_a_negative_delay() {
    let feed = PythPrice { price: 1, conf: 1, expo: -8, valid_slot: 110 };
    assert_eq!(normalize_pyth_price(&feed, 100).unwrap().delay, -10);
}

#[test]
fn switchboard_decimal_is_restated_in_price_units() {
    assert_eq!(
        convert_switchboard_decimal(&Decimal { mantissa: 123_456, scale: 3 }),
        Ok(1_234_560_000_000)
    );
    assert_eq!(convert_switchboard_decimal(&Decimal { mantissa: -987_654_321_098, scale: 12 }), Ok(-9_876_543_210));
    assert_eq!(convert_switchboard_decimal(&Decimal { mantissa: -999, scale: 13 }), Ok(0));
    assert_eq!(convert_switchboard_decimal(&Decimal { mantissa: 42, scale: 10 }), Ok(42));
}

#[test]
fn switchboard_decimal_fails_on_overflow() {
    assert_eq!(
        convert_switchboard_decimal(&Decimal { mantissa: 1, scale: 39 }),
        Err(ErrorCode::MathError)
    );
    assert_eq!(
        convert_switchboard_decimal(&Decimal { mantissa: i128::MAX, scale: 0 }),
        Err(ErrorCode::MathError)
    );
    assert_eq!(convert_switchboard_decimal(&Decimal { mantissa: i128::MAX, scale: 38 }), Ok(17_014_118_346));
}

#[test]
fn switchboard_confidence_is_the_reported_deviation() {
    assert_eq!(
        normalize_switchboard_round(&sample_round(), 100),
        Ok(OraclePriceData {
            price: 1_234_560_000_000,
            confidence: 5_000_000_000,
            delay: 10,
            has_sufficient_number_of_data_points: true,
        })
    );
}

#[test]
fn switchboard_confidence_is_raised_to_a_tenth_of_a_percent() {
    let mut round = sample_round();
    round.std_deviation = Decimal { mantissa: 0, scale: 0 };
    assert_eq!(normalize_switchboard_round(&round, 100).unwrap().confidence, 1_234_560_000);
    round.std_deviation = Decimal { mantissa: 1_234_559_999, scale: 10 };
    assert_eq!(normalize_switchboard_round(&round, 100).unwrap().confidence, 1_234_560_000);
    round.std_deviation = Decimal { mantissa: 1_234_560_001, scale: 10 };
    assert_eq!(normalize_switchboard_round(&round, 100).unwrap().confidence, 1_234_560_001);
    round.result = Decimal { mantissa: -123_456, scale: 3 };
    round.std_deviation = Decimal { mantissa: 0, scale: 0 };
    let data = normalize_switchboard_round(&round, 100).unwrap();
    assert_eq!(data.price, -1_234_560_000_000);
    assert_eq!(data.confidence, 1_234_560_000);
}

#[test]
fn switchboard_negative_deviation_gives_the_largest_confidence() {
    let mut round = sample_round();
    round.std_deviation = Decimal { mantissa: -1, scale: 0 };
    assert_eq!(normalize_switchboard_round(&round, 100).unwrap().confidence, u128::MAX);
    round.std_deviation = Decimal { mantissa: -1, scale: 10 };
    assert_eq!(normalize_switchboard_round(&round, 100).unwrap().confidence, u128::MAX);
}

#[test]
fn switchboard_deviation_that_rounds_to_zero_counts_as_zero() {
    let mut round = sample_round();
    round.std_deviation = Decimal { mantissa: -5, scale: 20 };
    assert_eq!(normalize_switchboard_round(&round, 100).unwrap().confidence, 1_234_560_000);
}

#[test]
fn switchboard_quorum_is_compared_with_the_minimum() {
    let mut round = sample_round();
    round.num_success = 3;
    assert!(normalize_switchboard_round(&round, 100).unwrap().has_sufficient_number_of_data_points);
    round.num_success = 2;
    assert!(!normalize_switchboard_round(&round, 100).unwrap().has_sufficient_number_of_data_points);
}

#[test]
fn switchboard_failures_are_math_errors() {
    let mut round = sample_round();
    round.result = Decimal { mantissa: 1, scale: 39 };
    assert_eq!(normalize_switchboard_round(&round, 100), Err(ErrorCode::MathError));
    let mut round = sample_round();
    round.std_deviation = Decimal { mantissa: i128::MIN, scale: 9 };
    assert_eq!(normalize_switchboard_round(&round, 100), Err(ErrorCode::MathError));
    let mut round = sample_round();
    round.round_open_slot = u64::MAX;
    assert_eq!(normalize_switchboard_round(&round, 100), Err(ErrorCode::MathError));
    assert_eq!(normalize_switchboard_round(&sample_round(), u64::MAX), Err(ErrorCode::MathError));
}

#[test]
fn quote_asset_price_is_one() {
    let mut data: Vec<u8> = Vec::new();
    assert_eq!(
        price_through_account(OracleSource::QuoteAsset, &mut data, 12_345),
        Ok(OraclePriceData {
            price: 10_000_000_000,
            confidence: 1,
            delay: 0,
            has_sufficient_number_of_data_points: true,
        })
    );
}

#[test]
fn pyth_account_is_read_and_normalized() {
    let mut data = pyth_account_data(-4_000_000_000, 1_000_000, -8, 90);
    assert_eq!(
        price_through_account(OracleSource::Pyth, &mut data, 100),
        Ok(OraclePriceData {
            price: -400_000_000_000,
            confidence: 100_000_000,
            delay: 10,
            has_sufficient_number_of_data_points: true,
        })
    );
}

#[test]
fn pyth_account_longer_than_a_price_is_read_from_its_start() {
    let mut data = pyth_account_data(25, 3, -6, 1);
    data.extend_from_slice(&[0xffu8; 100]);
    let observed = price_through_account(OracleSource::Pyth, &mut data, 4).unwrap();
    assert_eq!(observed.price, 250_000);
    assert_eq!(observed.confidence, 30_000);
    assert_eq!(observed.delay, 3);
}

#[test]
fn pyth_account_too_short_cannot_be_loaded() {
    let mut data = pyth_account_data(25, 3, -6, 1);
    data.truncate(PYTH_PRICE_ACCOUNT_LEN - 1);
    assert_eq!(
        price_through_account(OracleSource::Pyth, &mut data, 4),
        Err(ErrorCode::UnableToLoadOracle)
    );
    let mut empty: Vec<u8> = Vec::new();
    assert_eq!(
        price_through_account(OracleSource::Pyth, &mut empty, 4),
        Err(ErrorCode::UnableToLoadOracle)
    );
}

#[test]
fn pyth_account_with_an_exponent_too_wide_is_a_math_error() {
    let mut data = pyth_account_data(25, 3, -40, 1);
    assert_eq!(price_through_account(OracleSource::Pyth, &mut data, 4), Err(ErrorCode::MathError));
}

#[test]
fn account_borrowed_elsewhere_cannot_be_loaded() {
    let key = Pubkey::new_from_array([3u8; 32]);
    let mut lamports: u64 = 0;
    let mut data = pyth_account_data(25, 3, -6, 1);
    let account = AccountInfo::new(&key, false, true, &mut lamports, &mut data, &key, false, 0);
    let held = account.try_borrow_mut_data().unwrap();
    assert_eq!(get_pyth_price(&account, 4), Err(ErrorCode::UnableToLoadOracle));
    assert_eq!(get_switchboard_price(&account, 4), Err(ErrorCode::UnableToLoadOracle));
    assert_eq!(held.len(), PYTH_PRICE_ACCOUNT_LEN);
}

#[test]
fn switchboard_account_is_read_and_normalized() {
    let mut data = aggregator_account_data(&sample_round());
    assert_eq!(data.len(), SWITCHBOARD_AGGREGATOR_ACCOUNT_LEN);
    assert_eq!(
        price_through_account(OracleSource::Switchboard, &mut data, 100),
        Ok(OraclePriceData {
            price: 1_234_560_000_000,
            confidence: 5_000_000_000,
            delay: 10,
            has_sufficient_number_of_data_points: true,
        })
    );
}

#[test]
fn switchboard_account_with_too_few_answers_is_flagged() {
    let mut round = sample_round();
    round.num_success = 1;
    round.min_oracle_results = 2;
    let mut data = aggregator_account_data(&round);
    let observed = price_through_account(OracleSource::Switchboard, &mut data, 100).unwrap();
    assert!(!observed.has_sufficient_number_of_data_points);
}

#[test]
fn switchboard_account_with_a_negative_deviation_is_flagged() {
    let mut round = sample_round();
    round.std_deviation = Decimal { mantissa: -25, scale: 2 };
    let mut data = aggregator_account_data(&round);
    let observed = price_through_account(OracleSource::Switchboard, &mut data, 100).unwrap();
    assert_eq!(observed.confidence, u128::MAX);
    assert_eq!(observed.price, 1_234_560_000_000);
}

#[test]
fn switchboard_account_of_another_kind_cannot_be_loaded() {
    let mut data = aggregator_account_data(&sample_round());
    data[0] = 0;
    assert_eq!(
        price_through_account(OracleSource::Switchboard, &mut data, 100),
        Err(ErrorCode::UnableToLoadOracle)
    );
}

#[test]
fn switchboard_account_of_another_length_cannot_be_loaded() {
    let mut short = aggregator_account_data(&sample_round());
    short.truncate(SWITCHBOARD_AGGREGATOR_ACCOUNT_LEN - 1);
    assert_eq!(
        price_through_account(OracleSource::Switchboard, &mut short, 100),
        Err(ErrorCode::UnableToLoadOracle)
    );
    let mut long = aggregator_account_data(&sample_round());
    long.push(0);
    assert_eq!(
        price_through_account(OracleSource::Switchboard, &mut long, 100),
        Err(ErrorCode::UnableToLoadOracle)
    );
    let mut tiny: Vec<u8> = vec![217u8, 230, 65];
    assert_eq!(
        price_through_account(OracleSource::Switchboard, &mut tiny, 100),
        Err(ErrorCode::UnableToLoadOracle)
    );
}

#[test]
fn switchboard_account_with_a_scale_too_wide_is_a_math_error() {
    let mut round = sample_round();
    round.result = Decimal { mantissa: 1, scale: 40 };
    let mut data = aggregator_account_data(&round);
    assert_eq!(
        price_through_account(OracleSource::Switchboard, &mut data, 100),
        Err(ErrorCode::MathError)
    );
}

#[test]
fn confidence_of_a_switchboard_price_is_never_below_the_floor() {
    let mantissas: [i128; 6] = [0, 1, 999, 1_000, -123_456_789, 987_654_321_987_654_321];
    let deviations: [i128; 5] = [0, 1, 17, 1_000_000, 123_456_789_123];
    for mantissa in mantissas {
        for deviation in deviations {
            for scale in [0u32, 5, 10, 14] {
                let round = SwitchboardRound {
                    result: Decimal { mantissa, scale },
                    std_deviation: Decimal { mantissa: deviation, scale },
                    round_open_slot: 1,
                    num_success: 1,
                    min_oracle_results: 1,
                };
                let data = normalize_switchboard_round(&round, 2).unwrap();
                assert!(data.confidence >= data.price.unsigned_abs() / 1000);
                assert!(data.confidence >= convert_switchboard_decimal(&round.std_deviation).unwrap() as u128);
            }
        }
    }
}

#[test]
fn pyth_data_is_read_where_it_is_long_enough() {
    let data = pyth_account_data(123_456, 78, -5, 1_000);
    assert_eq!(
        pyth_price_from_data(&data, 1_001),
        Ok(OraclePriceData {
            price: 12_345_600_000,
            confidence: 7_800_000,
            delay: 1,
            has_sufficient_number_of_data_points: true,
        })
    );
    assert_eq!(
        pyth_price_from_data(&data[..PYTH_PRICE_ACCOUNT_LEN - 1], 1_001),
        Err(ErrorCode::UnableToLoadOracle)
    );
    assert_eq!(pyth_price_from_data(&[], 1_001), Err(ErrorCode::UnableToLoadOracle));
}

#[test]
fn pyth_data_is_read_wherever_it_lies_in_memory() {
    for offset in 0..8usize {
        let mut data: Vec<u8> = vec![0u8; offset];
        data.extend_from_slice(&pyth_account_data(-5, 2, -10, 9));
        let observed = pyth_price_from_data(&data[offset..], 10).unwrap();
        assert_eq!(observed.price, -5);
        assert_eq!(observed.confidence, 2);
        assert_eq!(observed.delay, 1);
    }
}

#[test]
fn switchboard_data_is_read_where_it_has_an_aggregators_length() {
    let data = aggregator_account_data(&sample_round());
    assert_eq!(
        switchboard_price_from_data(data.clone(), 95),
        Ok(OraclePriceData {
            price: 1_234_560_000_000,
            confidence: 5_000_000_000,
            delay: 5,
            has_sufficient_number_of_data_points: true,
        })
    );
    assert_eq!(
        switchboard_price_from_data(data[1..].to_vec(), 95),
        Err(ErrorCode::UnableToLoadOracle)
    );
    assert_eq!(switchboard_price_from_data(Vec::new(), 95), Err(ErrorCode::UnableToLoadOracle));
    let mut other = data;
    other[7] ^= 1;
    assert_eq!(switchboard_price_from_data(other, 95), Err(ErrorCode::UnableToLoadOracle));
}
