use vstd::prelude::*;
use vstd::arithmetic::div_mod::{
    lemma_div_is_ordered, lemma_div_multiples_vanish, lemma_div_pos_is_pos,
    lemma_fundamental_div_mod, lemma_fundamental_div_mod_converse,
};
use vstd::arithmetic::mul::{lemma_mul_inequality, lemma_mul_nonnegative};
use vstd::arithmetic::power::{
    lemma_pow0, lemma_pow1, lemma_pow_adds, lemma_pow_positive, lemma_pow_strictly_increases,
    pow,
};
use crate::error::ErrorCode;
use crate::math::constants::{MARK_PRICE_DECIMALS, MARK_PRICE_PRECISION};

verus! {

/// The magnitude of `x`.
pub open spec fn magnitude(x: int) -> int {
    if x < 0 {
        -x
    } else {
        x
    }
}

/// `x` divided by a positive `d`, rounded toward zero.
pub open spec fn quotient_toward_zero(x: int, d: int) -> int {
    if x < 0 {
        -((-x) / d)
    } else {
        x / d
    }
}

/// The magnitude of `x`, which always fits the unsigned type.
pub fn unsigned_abs(x: i128) -> (r: u128)
    ensures
        r == magnitude(x as int),
{
    if x >= 0 {
        x as u128
    } else if x == i128::MIN {
        0x8000_0000_0000_0000_0000_0000_0000_0000u128
    } else {
        (-x) as u128
    }
}

/// `x` divided by a positive `d`, rounded toward zero.
pub fn div_toward_zero(x: i128, d: i128) -> (r: i128)
    requires
        d > 0,
    ensures
        r == quotient_toward_zero(x as int, d as int),
{
    x / d
}

/// Ten to the power of `exponent`, where an unsigned 128-bit number holds it.
pub open spec fn pow10_checked(exponent: nat) -> Option<u128> {
    if pow(10, exponent) <= u128::MAX {
        Some(pow(10, exponent) as u128)
    } else {
        None
    }
}

/// Ten to the power of `exponent`, or `None` where that overflows.
pub fn checked_pow10(exponent: u32) -> (r: Option<u128>)
    ensures
        r == pow10_checked(exponent as nat),
{
    let mut power: u128 = 1;
    let mut done: u32 = 0;
    proof {
        lemma_pow0(10);
    }
    while done < exponent
        invariant
            done <= exponent,
            power == pow(10, done as nat),
        decreases exponent - done,
    {
        proof {
            lemma_pow_adds(10, done as nat, 1);
            lemma_pow_adds(10, (done + 1) as nat, (exponent - done - 1) as nat);
            lemma_pow_positive(10, (exponent - done - 1) as nat);
            lemma_pow1(10);
            lemma_mul_inequality(
                1,
                pow(10, (exponent - done - 1) as nat),
                pow(10, (done + 1) as nat),
            );
        }
        match power.checked_mul(10) {
            Some(next) => {
                power = next;
            },
            None => {
                return None;
            },
        }
        done = done + 1;
    }
    Some(power)
}

/// The largest exponent of ten that an unsigned 128-bit number holds.
pub const MAX_DECIMALS: u32 = 38;

/// One unit of price is ten to the power of its decimal places.
pub proof fn lemma_mark_price_precision()
    ensures
        pow(10, MARK_PRICE_DECIMALS as nat) == MARK_PRICE_PRECISION,
{
    reveal_with_fuel(pow, 11);
}

/// Ten to the power of `exponent` fits 128 bits exactly up to `MAX_DECIMALS`.
pub proof fn lemma_pow10_checked(exponent: nat)
    ensures
        pow10_checked(exponent) is Some <==> exponent <= MAX_DECIMALS,
        exponent <= MAX_DECIMALS ==> 0 < pow(10, exponent) <= pow(10, MAX_DECIMALS as nat),
{
    lemma_mark_price_precision();
    lemma_pow_adds(10, 10, 10);
    lemma_pow_adds(10, 20, 10);
    reveal_with_fuel(pow, 9);
    lemma_pow_adds(10, 30, 8);
    lemma_pow_adds(10, 30, 9);
    let p30 = pow(10, 30);
    assert(p30 == 10_000_000_000 * 10_000_000_000 * 10_000_000_000);
    assert(pow(10, 38) == p30 * 100_000_000);
    assert(pow(10, 39) == p30 * 1_000_000_000);
    assert(pow(10, 38) <= u128::MAX);
    assert(pow(10, 39) > u128::MAX);
    lemma_pow_positive(10, exponent);
    if exponent < 38 {
        lemma_pow_strictly_increases(10, exponent, 38);
    }
    if exponent > 39 {
        lemma_pow_strictly_increases(10, 39, exponent);
    }
}

/// A count of units of ten to the power of minus `decimals`, restated in
/// units of price: multiplied up where the source is coarser than a price,
/// divided toward zero where it is finer.
pub open spec fn to_mark_precision(value: int, decimals: nat) -> int {
    if decimals > MARK_PRICE_DECIMALS {
        quotient_toward_zero(value, pow(10, (decimals - MARK_PRICE_DECIMALS) as nat))
    } else {
        value * pow(10, (MARK_PRICE_DECIMALS - decimals) as nat)
    }
}

/// A restated value has the sign of what it restates.
pub proof fn lemma_to_mark_precision_sign(value: int, decimals: nat)
    ensures
        value >= 0 ==> to_mark_precision(value, decimals) >= 0,
        value <= 0 ==> to_mark_precision(value, decimals) <= 0,
{
    if decimals > MARK_PRICE_DECIMALS {
        let unit = pow(10, (decimals - MARK_PRICE_DECIMALS) as nat);
        lemma_pow_positive(10, (decimals - MARK_PRICE_DECIMALS) as nat);
        lemma_div_pos_is_pos(magnitude(value), unit);
    } else {
        let unit = pow(10, (MARK_PRICE_DECIMALS - decimals) as nat);
        lemma_pow_positive(10, (MARK_PRICE_DECIMALS - decimals) as nat);
        lemma_mul_nonnegative(magnitude(value), unit);
        assert((-value) * unit == -(value * unit)) by (nonlinear_arith);
    }
}

/// `to_mark_precision`, which fails where the source's own unit overflows
/// 128 bits or the restated value leaves the signed 128-bit range.
pub open spec fn scale_to_mark_precision_spec(value: int, decimals: nat) -> Result<
    i128,
    ErrorCode,
> {
    if decimals > MAX_DECIMALS {
        Err(ErrorCode::MathError)
    } else if to_mark_precision(value, decimals) < i128::MIN || to_mark_precision(value, decimals)
        > i128::MAX {
        Err(ErrorCode::MathError)
    } else {
        Ok(to_mark_precision(value, decimals) as i128)
    }
}

/// Restates `value`, given with `decimals` decimal places, in units of price.
pub fn scale_to_mark_precision(value: i128, decimals: u32) -> (r: Result<i128, ErrorCode>)
    ensures
        r == scale_to_mark_precision_spec(value as int, decimals as nat),
{
    proof {
        lemma_pow10_checked(decimals as nat);
        lemma_mark_price_precision();
    }
    let precision = match checked_pow10(decimals) {
        Some(precision) => precision,
        None => {
            return Err(ErrorCode::MathError);
        },
    };
    if precision > MARK_PRICE_PRECISION {
        proof {
            if decimals < MARK_PRICE_DECIMALS {
                lemma_pow_strictly_increases(10, decimals as nat, MARK_PRICE_DECIMALS as nat);
            }
            let finer = (decimals - MARK_PRICE_DECIMALS) as nat;
            lemma_pow_adds(10, MARK_PRICE_DECIMALS as nat, finer);
            lemma_pow_positive(10, finer);
            lemma_div_multiples_vanish(pow(10, finer), MARK_PRICE_PRECISION as int);
        }
        let divisor = precision / MARK_PRICE_PRECISION;
        Ok(div_toward_zero(value, divisor as i128))
    } else {
        proof {
            if decimals > MARK_PRICE_DECIMALS {
                lemma_pow_strictly_increases(10, MARK_PRICE_DECIMALS as nat, decimals as nat);
            }
            let coarser = (MARK_PRICE_DECIMALS - decimals) as nat;
            lemma_pow_adds(10, decimals as nat, coarser);
            lemma_pow_positive(10, coarser);
            lemma_div_multiples_vanish(pow(10, coarser), precision as int);
        }
        let multiplier = MARK_PRICE_PRECISION / precision;
        match value.checked_mul(multiplier as i128) {
            Some(scaled) => Ok(scaled),
            None => Err(ErrorCode::MathError),
        }
    }
}

/// `a * b / c` rounded down, where the divisor is not zero and an unsigned
/// 128-bit number holds the quotient. The product itself may be wider.
pub open spec fn mul_div_spec(a: nat, b: nat, c: nat) -> Option<u128> {
    if c == 0 || (a * b) / c > u128::MAX {
        None
    } else {
        Some(((a * b) / c) as u128)
    }
}

proof fn lemma_quotient_exceeds(total: int, q: int, rest: int, c: int)
    requires
        c > 0,
        rest >= 0,
        q > u128::MAX,
        total >= q * c + rest,
    ensures
        total / c > u128::MAX,
{
    let bound = u128::MAX + 1;
    lemma_mul_inequality(bound, q, c);
    lemma_div_multiples_vanish(bound, c);
    assert(c * bound == bound * c) by (nonlinear_arith);
    lemma_div_is_ordered(bound * c, total, c);
}

proof fn lemma_halves(acc: int, term: int, n: int)
    requires
        n > 0,
        term >= 0,
    ensures
        n % 2 == 1 ==> acc + term * n == (acc + term) + (2 * term) * (n / 2),
        n % 2 == 0 ==> acc + term * n == acc + (2 * term) * (n / 2),
        (2 * term) * (n / 2) >= 0,
        n / 2 > 0 ==> (2 * term) * (n / 2) >= 2 * term,
{
    let half = n / 2;
    assert(n == 2 * half + n % 2);
    assert(term * (2 * half + 1) == term + (2 * term) * half) by (nonlinear_arith);
    assert(term * (2 * half) == (2 * term) * half) by (nonlinear_arith);
    assert((2 * term) * half >= 0) by (nonlinear_arith)
        requires
            term >= 0,
            half >= 0,
    ;
    assert(half > 0 ==> (2 * term) * half >= 2 * term) by (nonlinear_arith)
        requires
            term >= 0,
            half >= 0,
    ;
}

/// The sum of two residues below `c`: whether it reached `c`, and what is left.
fn add_residues(x: u128, y: u128, c: u128) -> (r: (bool, u128))
    requires
        x < c,
        y < c,
    ensures
        r.1 < c,
        x + y == (if r.0 { c as int } else { 0 }) + r.1,
{
    if x >= c - y {
        (true, x - (c - y))
    } else {
        (false, x + y)
    }
}

/// `first + second`, and one more where `carry` is set; `None` on overflow.
fn add_with_carry(first: u128, second: u128, carry: bool) -> (r: Option<u128>)
    ensures
        r == (if first + second + (if carry { 1int } else { 0 }) > u128::MAX {
            None
        } else {
            Some((first + second + (if carry { 1int } else { 0 })) as u128)
        }),
{
    match first.checked_add(second) {
        None => None,
        Some(sum) => if carry {
            sum.checked_add(1)
        } else {
            Some(sum)
        },
    }
}

/// `a * b / c` rounded down, computed without forming the product, so that
/// only a quotient too large for the result, or a zero divisor, gives `None`.
pub fn mul_div(a: u128, b: u128, c: u128) -> (r: Option<u128>)
    ensures
        r == mul_div_spec(a as nat, b as nat, c as nat),
{
    if c == 0 {
        return None;
    }
    // The running sum is `sum_q * c + sum_r`, the running term `term_q * c + term_r`;
    // the sum plus `left` times the term stays the whole product.
    let mut sum_q: u128 = 0;
    let mut sum_r: u128 = 0;
    let mut term_q: u128 = a / c;
    let mut term_r: u128 = a % c;
    let mut left: u128 = b;
    proof {
        lemma_fundamental_div_mod(a as int, c as int);
        assert((a / c) * c == c * (a / c)) by (nonlinear_arith);
    }
    while left > 0
        invariant
            c > 0,
            sum_r < c,
            term_r < c,
            (sum_q * c + sum_r) + (term_q * c + term_r) * left == a * b,
        decreases left,
    {
        let ghost acc = sum_q * c + sum_r;
        let ghost term = term_q * c + term_r;
        proof {
            lemma_mul_nonnegative(term_q as int, c as int);
            lemma_mul_nonnegative(sum_q as int, c as int);
            lemma_halves(acc, term, left as int);
        }
        if left % 2 == 1 {
            let (carry, rest) = add_residues(sum_r, term_r, c);
            let ghost wide = sum_q + term_q + (if carry { 1int } else { 0 });
            proof {
                assert(wide * c + rest == acc + term) by (nonlinear_arith)
                    requires
                        wide == sum_q + term_q + (if carry { 1int } else { 0 }),
                        sum_r + term_r == (if carry { c as int } else { 0 }) + rest,
                        acc == sum_q * c + sum_r,
                        term == term_q * c + term_r,
                ;
            }
            match add_with_carry(sum_q, term_q, carry) {
                Some(next) => {
                    sum_q = next;
                },
                None => {
                    proof {
                        lemma_quotient_exceeds(a * b, wide, rest as int, c as int);
                    }
                    return None;
                },
            }
            sum_r = rest;
        }
        assert(sum_q * c + sum_r + (2 * term) * (left / 2) == a * b);
        left = left / 2;
        if left > 0 {
            let (carry, rest) = add_residues(term_r, term_r, c);
            let ghost wide = term_q + term_q + (if carry { 1int } else { 0 });
            proof {
                assert(wide * c + rest == 2 * term) by (nonlinear_arith)
                    requires
                        wide == term_q + term_q + (if carry { 1int } else { 0 }),
                        term_r + term_r == (if carry { c as int } else { 0 }) + rest,
                        term == term_q * c + term_r,
                ;
                lemma_mul_nonnegative(sum_q as int, c as int);
            }
            match add_with_carry(term_q, term_q, carry) {
                Some(next) => {
                    term_q = next;
                },
                None => {
                    proof {
                        lemma_quotient_exceeds(a * b, wide, rest as int, c as int);
                    }
                    return None;
                },
            }
            term_r = rest;
            assert(term_q * c + term_r == 2 * term);
        } else {
            assert((term_q * c + term_r) * left == 0) by (nonlinear_arith)
                requires
                    left == 0,
            ;
            assert((2 * term) * left == 0) by (nonlinear_arith)
                requires
                    left == 0,
            ;
        }
    }
    proof {
        lemma_fundamental_div_mod_converse(a * b, c as int, sum_q as int, sum_r as int);
    }
    Some(sum_q)
}

} // verus!
