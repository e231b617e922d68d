use clawnch_protocol::arith::{
    accrued_reward, elapsed_seconds, split, BPS_DENOMINATOR, SECONDS_PER_YEAR,
};
use clawnch_protocol::error::ClawnchError;

#[test]
fn split_rounds_down() {
    assert_eq!(split(1_000, 1_000), Ok(100));
    assert_eq!(split(999, 3_500), Ok(349));
    assert_eq!(split(1, 9_999), Ok(0));
    assert_eq!(split(10_000, 1), Ok(1));
    assert_eq!(split(9_999, 1), Ok(0));
}

#[test]
fn split_of_nothing_is_nothing() {
    assert_eq!(split(0, 10_000), Ok(0));
    assert_eq!(split(u64::MAX, 0), Ok(0));
}

#[test]
fn split_of_the_whole_is_the_amount() {
    assert_eq!(split(u64::MAX, 10_000), Ok(u64::MAX));
    assert_eq!(split(12_345, 10_000), Ok(12_345));
}

#[test]
fn split_is_exact_for_the_largest_amount() {
    assert_eq!(split(u64::MAX, 1_000), Ok(1_844_674_407_370_955_161));
    assert_eq!(split(u64::MAX, 2_000), Ok(3_689_348_814_741_910_323));
    assert_eq!(split(u64::MAX, 3_500), Ok(6_456_360_425_798_343_065));
    assert_eq!(split(1_000_000_000_000_000_000, 3_500), Ok(350_000_000_000_000_000));
}

#[test]
fn split_fails_when_the_share_does_not_fit() {
    assert_eq!(split(u64::MAX, 10_001), Err(ClawnchError::Overflow));
    assert_eq!(split(u64::MAX, u16::MAX), Err(ClawnchError::Overflow));
    // Above 10000 basis points a small amount still fits.
    assert_eq!(split(100, 20_000), Ok(200));
}

#[test]
fn split_is_deterministic() {
    let first: Result<u64, ClawnchError> = split(987_654_321, 3_500);
    let second: Result<u64, ClawnchError> = split(987_654_321, 3_500);
    assert_eq!(first, second);
    assert_eq!(first, Ok(345_679_012));
}

#[test]
fn four_shares_never_exceed_the_amount() {
    let amounts: Vec<u64> = vec![1, 3, 7, 1_003, 9_999, 10_001, 123_456_789, u64::MAX];
    for amount in amounts {
        let a: u64 = split(amount, 1_000).unwrap();
        let b: u64 = split(amount, 2_000).unwrap();
        let c: u64 = split(amount, 3_500).unwrap();
        let d: u64 = split(amount, 3_500).unwrap();
        let sum: u128 = a as u128 + b as u128 + c as u128 + d as u128;
        assert!(sum <= amount as u128);
        assert!(amount as u128 - sum < 4);
    }
}

#[test]
fn rounding_can_leave_three_units() {
    // Four quarters of 3 are 0 each: all 3 units stay unassigned.
    let quarter: u64 = split(3, 2_500).unwrap();
    assert_eq!(quarter, 0);
    assert_eq!(3 - 4 * quarter, 3);
    // Four quarters of 7 are 1 each.
    assert_eq!(split(7, 2_500), Ok(1));
}

#[test]
fn constants_have_their_values() {
    assert_eq!(BPS_DENOMINATOR, 10_000);
    assert_eq!(SECONDS_PER_YEAR, 365 * 24 * 3600);
}

#[test]
fn elapsed_counts_forward_time() {
    assert_eq!(elapsed_seconds(0, 10), 10);
    assert_eq!(elapsed_seconds(1_700_000_000, 1_700_086_400), 86_400);
    assert_eq!(elapsed_seconds(-5, 5), 10);
}

#[test]
fn elapsed_is_zero_when_the_clock_ran_backwards() {
    assert_eq!(elapsed_seconds(10, 0), 0);
    assert_eq!(elapsed_seconds(10, 10), 0);
    assert_eq!(elapsed_seconds(i64::MAX, i64::MIN), 0);
}

#[test]
fn elapsed_spans_the_whole_range() {
    assert_eq!(elapsed_seconds(i64::MIN, i64::MAX), u64::MAX);
    assert_eq!(elapsed_seconds(0, i64::MAX), i64::MAX as u64);
}

#[test]
fn reward_is_the_principal_after_a_year() {
    assert_eq!(accrued_reward(3_153_600_000, 31_536_000), 3_153_600_000);
    assert_eq!(accrued_reward(1, 31_536_000), 1);
    assert_eq!(accrued_reward(u64::MAX, 31_536_000), u64::MAX as u128);
}

#[test]
fn reward_is_proportional_and_rounds_down() {
    assert_eq!(accrued_reward(1_000, 86_400), 2);
    assert_eq!(accrued_reward(1_000_000, 86_400), 2_739);
    assert_eq!(accrued_reward(3_153_600_000, 15_768_000), 1_576_800_000);
    assert_eq!(accrued_reward(100, 31_535_999), 99);
    assert_eq!(accrued_reward(100, 63_072_000), 200);
}

#[test]
fn reward_is_zero_without_stake_or_time() {
    assert_eq!(accrued_reward(0, 1_000_000), 0);
    assert_eq!(accrued_reward(1_000_000, 0), 0);
}

#[test]
fn reward_is_exact_beyond_64_bits() {
    assert_eq!(
        accrued_reward(u64::MAX, u64::MAX),
        10_790_283_070_806_014_187_800_644_320_279
    );
}
