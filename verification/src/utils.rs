//! The project year of a timestamp.
use vstd::prelude::*;
use crate::error::{ProgramError, VestingError};
use crate::instruction::YEAR_IN_SECONDS;
use crate::supply_limits::{PROJECT_START_TIMESTAMP, PROJECT_YEARS};

verus! {

/// The project year (counted from 1) of `timestamp`, or the error for it:
/// `InvalidTime` before the project start, `InvalidYear` from the end of
/// the last project year on.
pub open spec fn spec_project_year(timestamp: u64) -> Result<u32, ProgramError> {
    if timestamp < PROJECT_START_TIMESTAMP {
        Err(ProgramError::Vesting(VestingError::InvalidTime))
    } else if (timestamp - PROJECT_START_TIMESTAMP) / (YEAR_IN_SECONDS as int) + 1
        > PROJECT_YEARS {
        Err(ProgramError::Vesting(VestingError::InvalidYear))
    } else {
        Ok(((timestamp - PROJECT_START_TIMESTAMP) / (YEAR_IN_SECONDS as int) + 1) as u32)
    }
}

/// The project year (1 to 5) that `current_timestamp` falls in.
pub fn calculate_project_year(current_timestamp: u64) -> (r: Result<u32, ProgramError>)
    ensures
        r == spec_project_year(current_timestamp),
        r matches Ok(y) ==> 1 <= y <= PROJECT_YEARS,
{
    if current_timestamp < PROJECT_START_TIMESTAMP {
        return Err(ProgramError::Vesting(VestingError::InvalidTime));
    }
    let elapsed_seconds = current_timestamp - PROJECT_START_TIMESTAMP;
    let years_passed = elapsed_seconds / YEAR_IN_SECONDS;
    if years_passed >= PROJECT_YEARS as u64 {
        return Err(ProgramError::Vesting(VestingError::InvalidYear));
    }
    Ok((years_passed + 1) as u32)
}

/// Later timestamps are in the same or a later project year.
pub proof fn lemma_project_year_monotone(t1: u64, t2: u64)
    requires
        t1 <= t2,
        spec_project_year(t1) is Ok,
        spec_project_year(t2) is Ok,
    ensures
        spec_project_year(t1)->Ok_0 <= spec_project_year(t2)->Ok_0,
{
    let a = (t1 - PROJECT_START_TIMESTAMP) as int;
    let b = (t2 - PROJECT_START_TIMESTAMP) as int;
    assert(a / (YEAR_IN_SECONDS as int) <= b / (YEAR_IN_SECONDS as int)) by (nonlinear_arith)
        requires
            0 <= a <= b,
            YEAR_IN_SECONDS > 0,
    ;
}


/// The project years are consecutive spans of 31,104,000 seconds (twelve
/// months of 30 days) from 1741608000 (March 10, 2025, 12:00 GMT): a
/// timestamp in the span that begins `k` whole years after the start, for
/// `k` from 0 to 4, is in project year `k + 1`; before the start it is too
/// early, and from five years after the start on there is no project year.
pub proof fn lemma_project_year_spans(t: u64, k: int)
    ensures
        t < 1741608000 ==> spec_project_year(t) == Err::<u32, ProgramError>(
            ProgramError::Vesting(VestingError::InvalidTime),
        ),
        t >= 1741608000 + 5 * 31104000 ==> spec_project_year(t) == Err::<u32, ProgramError>(
            ProgramError::Vesting(VestingError::InvalidYear),
        ),
        0 <= k < 5 && 1741608000 + k * 31104000 <= t < 1741608000 + (k + 1) * 31104000
            ==> spec_project_year(t) == Ok::<u32, ProgramError>((k + 1) as u32),
{
    if t >= 1741608000 {
        let e = t - 1741608000;
        if e >= 5 * 31104000 {
            assert(e / 31104000 >= 5) by (nonlinear_arith)
                requires
                    e >= 5 * 31104000,
            ;
        }
        if 0 <= k < 5 && k * 31104000 <= e < (k + 1) * 31104000 {
            assert(e / 31104000 == k) by (nonlinear_arith)
                requires
                    k * 31104000 <= e < (k + 1) * 31104000,
            ;
        }
    }
}

} // verus!
