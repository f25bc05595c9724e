use livermore_vesting::error::{ProgramError, VestingError};
use livermore_vesting::instruction::{VestingType, YEAR_IN_SECONDS};
use livermore_vesting::supply_limits::{
    validate_yearly_limit, DATA_PURCHASE_YEARLY_LIMIT, MARKET_YEARLY_LIMIT, PROJECT_START_TIMESTAMP,
    PROJECT_YEARS, TEAM_YEARLY_LIMIT, TOKEN_DECIMALS, TOKEN_MULTIPLIER, YEARLY_TOTAL_LIMIT,
};
use livermore_vesting::utils::calculate_project_year;
use livermore_vesting::THEORETICAL_MAX_SUPPLY;

#[test]
fn allocation_table() {
    assert_eq!(TOKEN_DECIMALS, 6);
    assert_eq!(TOKEN_MULTIPLIER, 1_000_000);
    assert_eq!(MARKET_YEARLY_LIMIT, 12_600_000_000_000);
    assert_eq!(DATA_PURCHASE_YEARLY_LIMIT, 21_000_000_000_000);
    assert_eq!(TEAM_YEARLY_LIMIT, 8_400_000_000_000);
    assert_eq!(YEARLY_TOTAL_LIMIT, 42_000_000 * TOKEN_MULTIPLIER);
    assert_eq!(PROJECT_YEARS, 5);
    assert_eq!(THEORETICAL_MAX_SUPPLY, 210_000_000 * TOKEN_MULTIPLIER);
    assert_eq!(MARKET_YEARLY_LIMIT * 5, 63_000_000 * TOKEN_MULTIPLIER);
    assert_eq!(DATA_PURCHASE_YEARLY_LIMIT * 5, 105_000_000 * TOKEN_MULTIPLIER);
    assert_eq!(TEAM_YEARLY_LIMIT * 5, 42_000_000 * TOKEN_MULTIPLIER);
}

#[test]
fn yearly_limit_per_type() {
    assert_eq!(validate_yearly_limit(&VestingType::Market, 1, MARKET_YEARLY_LIMIT), Ok(()));
    assert_eq!(
        validate_yearly_limit(&VestingType::Market, 1, MARKET_YEARLY_LIMIT + 1),
        Err(ProgramError::Vesting(VestingError::ExceedsYearlyLimit))
    );
    assert_eq!(
        validate_yearly_limit(&VestingType::Team, 5, TEAM_YEARLY_LIMIT + 1),
        Err(ProgramError::Vesting(VestingError::ExceedsYearlyLimit))
    );
    assert_eq!(
        validate_yearly_limit(&VestingType::DataPurchase, 3, DATA_PURCHASE_YEARLY_LIMIT),
        Ok(())
    );
    assert_eq!(
        validate_yearly_limit(&VestingType::Market, 0, 1),
        Err(ProgramError::Vesting(VestingError::InvalidYear))
    );
    assert_eq!(
        validate_yearly_limit(&VestingType::Market, 6, 1),
        Err(ProgramError::Vesting(VestingError::InvalidYear))
    );
}

#[test]
fn project_year_of_timestamps() {
    let s = PROJECT_START_TIMESTAMP;
    assert_eq!(
        calculate_project_year(s - 1),
        Err(ProgramError::Vesting(VestingError::InvalidTime))
    );
    assert_eq!(calculate_project_year(s), Ok(1));
    assert_eq!(calculate_project_year(s + YEAR_IN_SECONDS - 1), Ok(1));
    assert_eq!(calculate_project_year(s + YEAR_IN_SECONDS), Ok(2));
    assert_eq!(calculate_project_year(s + 5 * YEAR_IN_SECONDS - 1), Ok(5));
    assert_eq!(
        calculate_project_year(s + 5 * YEAR_IN_SECONDS),
        Err(ProgramError::Vesting(VestingError::InvalidYear))
    );
}

#[test]
fn project_year_is_invalid_long_after_the_last_year() {
    let t = PROJECT_START_TIMESTAMP + (1u64 << 32) * YEAR_IN_SECONDS;
    assert_eq!(
        calculate_project_year(t),
        Err(ProgramError::Vesting(VestingError::InvalidYear))
    );
    assert_eq!(
        calculate_project_year(u64::MAX),
        Err(ProgramError::Vesting(VestingError::InvalidYear))
    );
    assert_eq!(
        calculate_project_year(0),
        Err(ProgramError::Vesting(VestingError::InvalidTime))
    );
}
