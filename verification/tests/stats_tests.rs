use social_client::simulation::{checked_mean, mean};

#[test]
fn mean_of_single_value_is_that_value() {
    let values: Vec<u128> = vec![10];
    assert_eq!(mean(&values), 10);
}

#[test]
fn mean_of_two_values_truncates() {
    let values: Vec<u128> = vec![10, 20];
    assert_eq!(mean(&values), 15);
    let odd: Vec<u128> = vec![10, 21];
    assert_eq!(mean(&odd), 15);
}

#[test]
fn mean_of_larger_recording() {
    let values: Vec<u128> = vec![5, 10, 15, 20, 25];
    assert_eq!(mean(&values), 15);
}

#[test]
fn checked_mean_of_empty_recording_is_none() {
    let values: Vec<u128> = vec![];
    assert_eq!(checked_mean(&values), None);
}

#[test]
fn checked_mean_matches_mean_when_defined() {
    let values: Vec<u128> = vec![10, 20];
    assert_eq!(checked_mean(&values), Some(15));
    let single: Vec<u128> = vec![10];
    assert_eq!(checked_mean(&single), Some(10));
}

#[test]
fn checked_mean_detects_overflow() {
    let values: Vec<u128> = vec![u128::MAX, 1];
    assert_eq!(checked_mean(&values), None);
}

#[test]
fn checked_mean_accepts_the_largest_sum() {
    let values: Vec<u128> = vec![u128::MAX];
    assert_eq!(checked_mean(&values), Some(u128::MAX));
}
