use vstd::prelude::*;
use crate::math::constants::PRICE_TO_PEG_PRECISION_RATIO;
use crate::math::fixed_point::mul_div;

verus! {

/// The price of the base asset in units of price: the quote amount, pegged,
/// over the base amount.
pub open spec fn base_asset_price_with_mantissa(
    unpegged_quote_asset_amount: nat,
    base_asset_amount: nat,
    peg_multiplier: nat,
) -> nat {
    (unpegged_quote_asset_amount * peg_multiplier * PRICE_TO_PEG_PRECISION_RATIO as nat)
        / base_asset_amount
}

/// The price of the base asset, or `None` where the pegged quote amount or
/// the price overflows 128 bits or the base amount is zero. The product of
/// the pegged quote amount and the precision ratio is never formed in 128
/// bits, so it cannot overflow.
pub fn checked_base_asset_price_with_mantissa(
    unpegged_quote_asset_amount: u128,
    base_asset_amount: u128,
    peg_multiplier: u128,
) -> (price: Option<u128>)
    ensures
        price is Some <==> {
            &&& unpegged_quote_asset_amount * peg_multiplier <= u128::MAX
            &&& base_asset_amount != 0
            &&& base_asset_price_with_mantissa(
                unpegged_quote_asset_amount as nat,
                base_asset_amount as nat,
                peg_multiplier as nat,
            ) <= u128::MAX
        },
        price matches Some(p) ==> p == base_asset_price_with_mantissa(
            unpegged_quote_asset_amount as nat,
            base_asset_amount as nat,
            peg_multiplier as nat,
        ),
{
    match unpegged_quote_asset_amount.checked_mul(peg_multiplier) {
        None => None,
        Some(peg_quote_asset_amount) => mul_div(
            peg_quote_asset_amount,
            PRICE_TO_PEG_PRECISION_RATIO,
            base_asset_amount,
        ),
    }
}

/// The price of the base asset in units of price.
pub fn calculate_base_asset_price_with_mantissa(
    unpegged_quote_asset_amount: u128,
    base_asset_amount: u128,
    peg_multiplier: u128,
) -> (price: u128)
    requires
        unpegged_quote_asset_amount * peg_multiplier <= u128::MAX,
        base_asset_amount != 0,
        base_asset_price_with_mantissa(
            unpegged_quote_asset_amount as nat,
            base_asset_amount as nat,
            peg_multiplier as nat,
        ) <= u128::MAX,
    ensures
        price == base_asset_price_with_mantissa(
            unpegged_quote_asset_amount as nat,
            base_asset_amount as nat,
            peg_multiplier as nat,
        ),
{
    let peg_quote_asset_amount = unpegged_quote_asset_amount * peg_multiplier;
    mul_div(peg_quote_asset_amount, PRICE_TO_PEG_PRECISION_RATIO, base_asset_amount).unwrap()
}

} // verus!
