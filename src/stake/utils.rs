use vstd::prelude::*;
use crate::stake::error::ProtocolError;

verus! {

/// How many entitlement tokens one principal token becomes when it is locked for
/// `duration` seconds: three months, six months or a year.
pub open spec fn conversion_ratio_spec(duration: i64) -> Result<u64, ProtocolError> {
    if 7_689_600 <= duration <= 7_948_800 {
        Ok(2)
    } else if 15_638_400 <= duration <= 15_897_600 {
        Ok(5)
    } else if 31_536_000 <= duration <= 31_622_400 {
        Ok(10)
    } else {
        Err(ProtocolError::InvalidParams)
    }
}

/// The conversion ratio of a lock duration; `InvalidParams` for any other duration.
pub fn conversion_ratio(duration: i64) -> (r: Result<u64, ProtocolError>)
    ensures
        r == conversion_ratio_spec(duration),
{
    if 7_689_600 <= duration && duration <= 7_948_800 {
        // 89 to 92 days
        Ok(2)
    } else if 15_638_400 <= duration && duration <= 15_897_600 {
        // six months
        Ok(5)
    } else if 31_536_000 <= duration && duration <= 31_622_400 {
        // twelve months
        Ok(10)
    } else {
        Err(ProtocolError::InvalidParams)
    }
}

} // verus!
