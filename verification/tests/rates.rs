//! The table update rates and the intervals they stand for.

use lzham::{TableUpdateInterval, TableUpdateRate};

fn pair(interval: TableUpdateInterval) -> (u32, u32) {
    (interval.0, interval.1)
}

#[test]
fn presets_carry_their_rates() {
    assert_eq!(TableUpdateRate::fast().to_c_type(), 20);
    assert_eq!(TableUpdateRate::default_rate().to_c_type(), 8);
    assert_eq!(TableUpdateRate::slow().to_c_type(), 2);
    assert_eq!(TableUpdateRate::very_slow().to_c_type(), 1);
}

#[test]
fn settings_of_the_default_and_the_fastest_rate() {
    assert_eq!(pair(TableUpdateRate::default_rate().table_update_settings()), (64, 64));
    assert_eq!(pair(TableUpdateRate::fast().table_update_settings()), (2048, 384));
}

#[test]
fn settings_of_the_slow_presets() {
    assert_eq!(pair(TableUpdateRate::slow().table_update_settings()), (5, 33));
    assert_eq!(pair(TableUpdateRate::very_slow().table_update_settings()), (4, 32));
}

#[test]
fn numbers_above_the_fastest_rate_become_the_fastest() {
    let clamped = TableUpdateRate::new(999);
    assert_eq!(clamped.to_c_type(), 20);
    assert_eq!(
        pair(clamped.table_update_settings()),
        pair(TableUpdateRate::fast().table_update_settings())
    );
    assert_eq!(TableUpdateRate::new(21).to_c_type(), 20);
    assert_eq!(TableUpdateRate::new(u32::MAX).to_c_type(), 20);
}

#[test]
fn numbers_above_the_slowest_rate_become_the_slowest() {
    for number in 2..=20 {
        let rate = TableUpdateRate::new(number);
        assert_eq!(rate.to_c_type(), 1);
        assert_eq!(pair(rate.table_update_settings()), (4, 32));
    }
}

#[test]
fn one_and_zero_stay_as_they_are() {
    let one = TableUpdateRate::new(1);
    assert_eq!(one.to_c_type(), 1);
    assert!(one.is_valid());
    assert_eq!(pair(one.table_update_settings()), (4, 32));

    let zero = TableUpdateRate::new(0);
    assert_eq!(zero.to_c_type(), 0);
    assert!(!zero.is_valid());
}

#[test]
fn the_same_number_gives_the_same_settings() {
    for number in [1, 2, 8, 20, 21, 999] {
        let first = TableUpdateRate::new(number).table_update_settings();
        let second = TableUpdateRate::new(number).table_update_settings();
        assert_eq!(pair(first), pair(second));
    }
}

#[test]
fn interval_from_rate_is_the_rate_s_settings() {
    let rate = TableUpdateRate::fast();
    assert_eq!(pair(TableUpdateInterval::from_rate(&rate)), (2048, 384));
    assert_eq!(
        pair(TableUpdateInterval::from_rate(&TableUpdateRate::slow())),
        pair(TableUpdateRate::slow().table_update_settings())
    );
}

#[test]
fn the_default_interval_is_that_of_the_default_rate() {
    assert_eq!(pair(TableUpdateInterval::default()), (64, 64));
    assert_eq!(TableUpdateInterval::default().to_c_type(), (64, 64));
}

#[test]
fn an_interval_converts_to_its_two_numbers() {
    assert_eq!(TableUpdateInterval(7, 9).to_c_type(), (7, 9));
}
