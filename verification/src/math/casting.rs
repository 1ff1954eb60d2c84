use vstd::prelude::*;
use crate::error::ErrorCode;

verus! {

/// `value` as a signed 128-bit number, where it is in that range.
pub fn cast_to_i128(value: u128) -> (r: Result<i128, ErrorCode>)
    ensures
        value <= i128::MAX ==> r == Ok::<i128, ErrorCode>(value as i128),
        value > i128::MAX ==> r == Err::<i128, ErrorCode>(ErrorCode::MathError),
{
    if value <= 0x7fff_ffff_ffff_ffff_ffff_ffff_ffff_ffffu128 {
        Ok(value as i128)
    } else {
        Err(ErrorCode::MathError)
    }
}

/// `value` as a signed 64-bit number, where it is in that range.
pub fn cast_to_i64(value: u64) -> (r: Result<i64, ErrorCode>)
    ensures
        value <= i64::MAX ==> r == Ok::<i64, ErrorCode>(value as i64),
        value > i64::MAX ==> r == Err::<i64, ErrorCode>(ErrorCode::MathError),
{
    if value <= 0x7fff_ffff_ffff_ffffu64 {
        Ok(value as i64)
    } else {
        Err(ErrorCode::MathError)
    }
}

} // verus!
