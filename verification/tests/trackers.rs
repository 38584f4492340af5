use mean_reversion::api::error::ApiError;
use mean_reversion::engine::market::ProcessedCandle;
use mean_reversion::engine::math::{Math, TradingMath};
use mean_reversion::strategy::mean_calculation::{MaTracker, MeanCalculation, MeanCalculationMethod};

fn tracker(period: usize) -> MaTracker {
    MaTracker::new(period, MeanCalculationMethod::SimpleMA).unwrap()
}

#[test]
fn empty_tracker_has_mean_zero() {
    let t = tracker(5);
    assert_eq!(t.calculate(), 0);
    assert_eq!(t.len(), 0);
    assert_eq!(t.period(), 5);
}

#[test]
fn mean_while_window_is_filling() {
    let mut t = tracker(4);
    assert_eq!(t.update(10), 10);
    assert_eq!(t.update(20), 15);
    assert_eq!(t.update(60), 30);
    assert_eq!(t.calculate(), 30);
    assert_eq!(t.len(), 3);
}

#[test]
fn mean_covers_only_the_most_recent_values() {
    let mut t = tracker(3);
    for v in [1u64, 2, 3, 4, 5] {
        t.update(v);
    }
    // the last three are 3, 4, 5
    assert_eq!(t.calculate(), 4);
    assert_eq!(t.len(), 3);
    assert_eq!(t.update(9), 6);
}

#[test]
fn mean_is_rounded_down() {
    let mut t = tracker(2);
    t.update(1);
    assert_eq!(t.update(2), 1);
    assert_eq!(t.update(5), 3);
}

#[test]
fn twenty_identical_closes_give_their_value() {
    let mut t = tracker(20);
    let candle = ProcessedCandle { timestamp: 0, open: 99, high: 101, low: 98, close: 100, volume: 7 };
    let mut last = 0;
    for _ in 0..20 {
        last = t.update(candle.close);
    }
    assert_eq!(last, 100);
    assert_eq!(t.calculate(), 100);
}

#[test]
fn constant_series_stays_exact_over_a_long_run() {
    let mut t = tracker(20);
    for _ in 0..10_000 {
        assert_eq!(t.update(100), 100);
    }
}

#[test]
fn tracker_of_period_zero_retains_nothing() {
    let mut t = tracker(0);
    assert_eq!(t.update(42), 0);
    assert_eq!(t.len(), 0);
}

#[test]
fn tracker_takes_the_largest_values() {
    let mut t = tracker(3);
    for _ in 0..5 {
        assert_eq!(t.update(u64::MAX), u64::MAX);
    }
}

#[test]
fn exponential_method_is_refused() {
    let r = MaTracker::new(20, MeanCalculationMethod::EMA);
    assert!(matches!(r, Err(ApiError::ValidationError(_))));
}

#[test]
fn volume_weighted_method_is_refused() {
    let r = MaTracker::new(20, MeanCalculationMethod::VMAP);
    assert!(matches!(r, Err(ApiError::ValidationError(_))));
}

#[test]
fn mean_of_a_series() {
    assert_eq!(TradingMath::calculate_mean(&[50, 100]), 75);
    assert_eq!(TradingMath::calculate_mean(&[1, 2, 4]), 2);
    assert_eq!(TradingMath::calculate_mean(&[u64::MAX, u64::MAX]), u64::MAX);
}

#[test]
fn candle_midpoint() {
    let c = ProcessedCandle { timestamp: 1, open: 100, high: 130, low: 90, close: 121, volume: 0 };
    assert_eq!(c.calculate_mean(), 110);
    let top = ProcessedCandle { timestamp: 1, open: u64::MAX, high: 0, low: 0, close: u64::MAX, volume: 0 };
    assert_eq!(top.calculate_mean(), u64::MAX);
}
