//! Token amounts, the project's time frame and the yearly issuance limits.
use vstd::prelude::*;
use crate::error::{ProgramError, VestingError};
use crate::instruction::VestingType;

verus! {

/// Decimals of the project token.
pub const TOKEN_DECIMALS: u8 = 6;

/// Base units in one whole token (10^6).
pub const TOKEN_MULTIPLIER: u64 = 1_000_000;

/// Start of the first project year: Monday, March 10, 2025 12:00:00 PM GMT.
pub const PROJECT_START_TIMESTAMP: u64 = 1741608000;

/// Yearly issuance limit of the market allocation (12.6 million tokens).
pub const MARKET_YEARLY_LIMIT: u64 = 12_600_000 * TOKEN_MULTIPLIER;

/// Yearly issuance limit of the data purchase allocation (21 million tokens).
pub const DATA_PURCHASE_YEARLY_LIMIT: u64 = 21_000_000 * TOKEN_MULTIPLIER;

/// Yearly issuance limit of the team allocation (8.4 million tokens).
pub const TEAM_YEARLY_LIMIT: u64 = 8_400_000 * TOKEN_MULTIPLIER;

/// Yearly issuance limit of all allocations together (42 million tokens).
pub const YEARLY_TOTAL_LIMIT: u64 = MARKET_YEARLY_LIMIT + DATA_PURCHASE_YEARLY_LIMIT
    + TEAM_YEARLY_LIMIT;

/// Number of project years.
pub const PROJECT_YEARS: u32 = 5;

/// Most tokens the project can ever issue: the yearly total over all project years.
pub const THEORETICAL_MAX_SUPPLY: u64 = YEARLY_TOTAL_LIMIT * 5u64;

/// The yearly limit of one vesting type.
pub open spec fn yearly_limit(vesting_type: VestingType) -> u64 {
    match vesting_type {
        VestingType::Market => MARKET_YEARLY_LIMIT,
        VestingType::DataPurchase => DATA_PURCHASE_YEARLY_LIMIT,
        VestingType::Team => TEAM_YEARLY_LIMIT,
    }
}

/// Whether `year` is one of the project years `1..=PROJECT_YEARS`.
pub open spec fn is_project_year(year: u32) -> bool {
    1 <= year <= PROJECT_YEARS
}

/// Checks that one request for `amount` tokens of `vesting_type` in `year`
/// stays within that type's yearly limit.
pub fn validate_yearly_limit(vesting_type: &VestingType, year: u32, amount: u64) -> (r: Result<
    (),
    ProgramError,
>)
    ensures
        !is_project_year(year) ==> r == Err::<(), ProgramError>(
            ProgramError::Vesting(VestingError::InvalidYear),
        ),
        is_project_year(year) && amount > yearly_limit(*vesting_type) ==> r == Err::<
            (),
            ProgramError,
        >(ProgramError::Vesting(VestingError::ExceedsYearlyLimit)),
        is_project_year(year) && amount <= yearly_limit(*vesting_type) ==> r is Ok,
{
    if year == 0 || year > PROJECT_YEARS {
        return Err(ProgramError::Vesting(VestingError::InvalidYear));
    }
    let limit = match vesting_type {
        VestingType::Market => MARKET_YEARLY_LIMIT,
        VestingType::DataPurchase => DATA_PURCHASE_YEARLY_LIMIT,
        VestingType::Team => TEAM_YEARLY_LIMIT,
    };
    if amount > limit {
        return Err(ProgramError::Vesting(VestingError::ExceedsYearlyLimit));
    }
    Ok(())
}


/// The yearly limits of the vesting types are those of the allocation
/// table, in base units of six decimals: 12.6 million tokens for the
/// market, 21 million for data purchase, 8.4 million for the team, and 42
/// million for all together; the project years are 1 to 5.
pub proof fn lemma_yearly_limits_are_the_allocation(vesting_type: VestingType, year: u32)
    ensures
        is_project_year(year) <==> 1 <= year <= 5,
        yearly_limit(VestingType::Market) == 12_600_000_000_000u64,
        yearly_limit(VestingType::DataPurchase) == 21_000_000_000_000u64,
        yearly_limit(VestingType::Team) == 8_400_000_000_000u64,
        YEARLY_TOTAL_LIMIT == 42_000_000_000_000u64,
        yearly_limit(vesting_type) <= YEARLY_TOTAL_LIMIT,
{
}

} // verus!
