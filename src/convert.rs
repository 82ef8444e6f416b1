//! Integer conversions, through `num_traits::ToPrimitive`.
use vstd::prelude::*;
use num_traits::ToPrimitive;

verus! {

/// Relies on `<u8 as num_traits::ToPrimitive>::to_i64`: every `u8` fits in an `i64`.
#[verifier::external_body]
pub(crate) fn u8_to_i64(x: u8) -> (r: Option<i64>)
    ensures
        r == Some(x as i64),
{
    x.to_i64()
}

/// Relies on `<i64 as num_traits::ToPrimitive>::to_u64`: `Some` exactly when the value
/// is not negative.
#[verifier::external_body]
pub(crate) fn i64_to_u64(x: i64) -> (r: Option<u64>)
    ensures
        x >= 0 ==> r == Some(x as u64),
        x < 0 ==> r is None,
{
    x.to_u64()
}

/// Relies on `<i64 as num_traits::ToPrimitive>::to_u8`: `Some` exactly when the value
/// lies in `0..=255`.
#[verifier::external_body]
pub(crate) fn i64_to_u8(x: i64) -> (r: Option<u8>)
    ensures
        0 <= x <= 255 ==> r == Some(x as u8),
        !(0 <= x <= 255) ==> r is None,
{
    x.to_u8()
}

/// Relies on `<u128 as num_traits::ToPrimitive>::to_u64`: `Some` exactly when the value
/// is at most `u64::MAX`.
#[verifier::external_body]
pub(crate) fn u128_to_u64(x: u128) -> (r: Option<u64>)
    ensures
        x <= u64::MAX ==> r == Some(x as u64),
        x > u64::MAX ==> r is None,
{
    x.to_u64()
}

} // verus!
