use livermore_vesting::instruction::{create_vesting_schedules, VestingType};

#[test]
fn test_vesting_schedules_creation() {
    let now: u64 = 1609459200; // 2021-01-01

    // Test Market type
    let market_schedules = create_vesting_schedules(now, VestingType::Market, 1, 1000);
    assert_eq!(market_schedules.len(), 1);
    assert_eq!(market_schedules[0].amount, 1000);

    // Test DataPurchase type
    let data_schedules = create_vesting_schedules(now, VestingType::DataPurchase, 1, 1000);
    assert_eq!(data_schedules.len(), 2);
    assert_eq!(data_schedules[0].amount + data_schedules[1].amount, 1000);

    // Test Team type
    let team_schedules = create_vesting_schedules(now, VestingType::Team, 1, 1000);
    assert_eq!(team_schedules.len(), 1);
    assert_eq!(team_schedules[0].amount, 1000);

    // Test invalid input
    let invalid_schedules = create_vesting_schedules(now, VestingType::Market, 0, 1000);
    assert_eq!(invalid_schedules.len(), 0);
}

use livermore_vesting::instruction::{MONTH_IN_SECONDS, THREE_YEARS_IN_SECONDS, YEAR_IN_SECONDS};

#[test]
fn market_schedule_releases_after_one_month() {
    let s = create_vesting_schedules(1_000, VestingType::Market, 2, 77);
    assert_eq!(s.len(), 1);
    assert_eq!(s[0].release_time, 1_000 + 2_592_000);
    assert_eq!(s[0].release_time, 1_000 + MONTH_IN_SECONDS);
    assert_eq!(s[0].amount, 77);
}

#[test]
fn data_purchase_schedule_splits_odd_amount() {
    let s = create_vesting_schedules(5, VestingType::DataPurchase, 3, 1001);
    assert_eq!(s.len(), 2);
    assert_eq!(s[0].release_time, 5 + 6 * MONTH_IN_SECONDS);
    assert_eq!(s[0].amount, 500);
    assert_eq!(s[1].release_time, 5 + YEAR_IN_SECONDS);
    assert_eq!(s[1].amount, 501);
}

#[test]
fn team_schedule_releases_after_three_years() {
    let s = create_vesting_schedules(0, VestingType::Team, 5, 9);
    assert_eq!(s.len(), 1);
    assert_eq!(s[0].release_time, THREE_YEARS_IN_SECONDS);
    assert_eq!(s[0].release_time, 93_312_000);
    assert_eq!(s[0].amount, 9);
}

#[test]
fn zero_amount_gives_no_schedule() {
    assert_eq!(create_vesting_schedules(0, VestingType::Team, 1, 0).len(), 0);
    assert_eq!(create_vesting_schedules(0, VestingType::DataPurchase, 0, 0).len(), 0);
}

#[test]
fn schedules_add_up_to_the_amount() {
    for amount in [1u64, 2, 3, 999_999, u64::MAX] {
        for t in [VestingType::Market, VestingType::DataPurchase, VestingType::Team] {
            let s = create_vesting_schedules(10, t, 1, amount);
            let total: u128 = s.iter().map(|x| x.amount as u128).sum();
            assert_eq!(total, amount as u128);
            assert!(s.iter().all(|x| x.release_time > 10));
        }
    }
}

#[test]
fn time_constants() {
    assert_eq!(MONTH_IN_SECONDS, 30 * 24 * 60 * 60);
    assert_eq!(YEAR_IN_SECONDS, 31_104_000);
    assert_eq!(THREE_YEARS_IN_SECONDS, 3 * YEAR_IN_SECONDS);
}
