use mean_reversion::api::supported_api::Api;
use mean_reversion::engine::market::Position;
use mean_reversion::engine::trading_strategy::{
    deviation, entry_quantity, exit_reason, ExitReason, TradingStrategy,
};
use mean_reversion::strategy::mean_calculation::MeanCalculationMethod;
use mean_reversion::strategy::strategy::{
    Exchange, MeasurementDeviation, RiskManagement, Strategy, RATIO_SCALE,
};
use mean_reversion::strategy::timeframe::{PeriodMeasurement, StrategyTimeframe};
use time::UtcDateTime;

fn risk() -> RiskManagement {
    RiskManagement {
        capital_per_trade: 100_000,
        max_positions: 2,
        max_drawdown: 500_000,
        stop_loss: 30_000,
        profit_level: 150_000,
    }
}

fn strategy() -> Strategy {
    Strategy {
        symbol: "BTCUSDT".to_string(),
        trading_symbol: "USDT".to_string(),
        pair: "BTC/USDT".to_string(),
        exchange: Exchange { api: Api::Binance },
        timeframe: StrategyTimeframe {
            interval: "1h".to_string(),
            tick: 900,
            period_measurement: PeriodMeasurement {
                measure_bars: 20,
                mean_calculation_method: MeanCalculationMethod::SimpleMA,
            },
        },
        risk_management: risk(),
        measurement_deviation: MeasurementDeviation { enter_deviation: 10_000_000 },
    }
}

fn position(id: u128, entry_price: u64, quantity: u64) -> Position {
    Position { id, symbol: "BTCUSDT".to_string(), entry_price, quantity, timestamp: UtcDateTime::UNIX_EPOCH }
}

#[test]
fn deviation_of_eighty_against_hundred_is_minus_twenty_percent() {
    assert_eq!(deviation(80, 100), Some(-20_000_000));
}

#[test]
fn deviation_above_the_long_mean_is_positive() {
    assert_eq!(deviation(125, 100), Some(25_000_000));
    assert_eq!(deviation(100, 100), Some(0));
}

#[test]
fn deviation_is_rounded_towards_zero() {
    // 1/3 of a percent point: 33.333333..%
    assert_eq!(deviation(4, 3), Some(33_333_333));
    assert_eq!(deviation(2, 3), Some(-33_333_333));
}

#[test]
fn no_deviation_from_a_long_mean_of_zero() {
    assert_eq!(deviation(80, 0), None);
}

#[test]
fn entry_is_accepted_twenty_percent_below_with_threshold_ten() {
    let ts = TradingStrategy::new(2);
    let r = ts.check_entry_signals(100, 80, 100, 1_000_000, &strategy());
    // a tenth of the balance at 100 a lot
    assert_eq!(r, Some(1_000));
}

#[test]
fn entry_is_accepted_exactly_at_the_threshold() {
    let ts = TradingStrategy::new(2);
    assert_eq!(ts.check_entry_signals(100, 90, 100, 1_000_000, &strategy()), Some(1_000));
}

#[test]
fn entry_is_declined_just_above_the_threshold() {
    let ts = TradingStrategy::new(2);
    assert_eq!(ts.check_entry_signals(100, 91, 100, 1_000_000, &strategy()), None);
    assert_eq!(ts.check_entry_signals(100, 120, 100, 1_000_000, &strategy()), None);
}

#[test]
fn entry_is_declined_without_a_long_mean() {
    let ts = TradingStrategy::new(2);
    assert_eq!(ts.check_entry_signals(100, 0, 0, 1_000_000, &strategy()), None);
}

#[test]
fn entry_is_declined_at_capacity() {
    let mut ts = TradingStrategy::new(2);
    ts.confirm_entry(Ok(position(1, 100, 5))).unwrap();
    assert_eq!(ts.check_entry_signals(100, 80, 100, 1_000_000, &strategy()), Some(1_000));
    ts.confirm_entry(Ok(position(2, 100, 5))).unwrap();
    assert_eq!(ts.open_positions_count(), 2);
    assert_eq!(ts.check_entry_signals(100, 80, 100, 1_000_000, &strategy()), None);
}

#[test]
fn entry_is_declined_without_funds() {
    let ts = TradingStrategy::new(2);
    assert_eq!(ts.check_entry_signals(100, 80, 100, 0, &strategy()), None);
    assert_eq!(ts.check_entry_signals(100, 80, 100, -5_000, &strategy()), None);
    // too little for one lot
    assert_eq!(ts.check_entry_signals(100, 80, 100, 999, &strategy()), None);
    assert_eq!(ts.check_entry_signals(100, 80, 100, 1_000, &strategy()), Some(1));
}

#[test]
fn quantity_is_the_share_of_the_balance_over_the_price() {
    assert_eq!(entry_quantity(1_000_000, 100_000, 100), Some(1_000));
    assert_eq!(entry_quantity(1_000_000, RATIO_SCALE as u32, 3), Some(333_333));
    assert_eq!(entry_quantity(1_000_000, 100_000, 0), None);
    assert_eq!(entry_quantity(1_000_000, 0, 100), None);
}

#[test]
fn quantity_of_a_huge_balance() {
    // the whole of the largest balance at a price of one a lot does not fit
    assert_eq!(entry_quantity(i128::MAX, RATIO_SCALE as u32, 1), None);
    // 2^100 * (2^20 / 10^6) / 2^60: computed without overflow
    let q = entry_quantity(1i128 << 100, 1 << 20, 1 << 60);
    assert_eq!(q, Some(((1u128 << 120) / (1_000_000u128 << 60)) as u64));
    assert_eq!(entry_quantity(u64::MAX as i128 * 1_000_000, RATIO_SCALE as u32, 1_000_000), Some(u64::MAX));
}

#[test]
fn stop_loss_triggers_five_percent_below_entry() {
    let p = position(7, 100, 3);
    assert_eq!(exit_reason(&p, 95, 95, &risk()), Some(ExitReason::StopLoss));
}

#[test]
fn stop_loss_triggers_exactly_at_the_threshold() {
    let p = position(7, 100, 3);
    assert_eq!(exit_reason(&p, 97, 97, &risk()), Some(ExitReason::StopLoss));
    assert_eq!(exit_reason(&p, 98, 98, &risk()), None);
}

#[test]
fn profit_target_triggers_on_the_position_own_gain() {
    let p = position(7, 100, 3);
    assert_eq!(exit_reason(&p, 115, 115, &risk()), Some(ExitReason::ProfitTarget));
    assert_eq!(exit_reason(&p, 114, 114, &risk()), None);
}

#[test]
fn unstable_price_triggers_against_the_short_mean() {
    let p = position(7, 100, 3);
    // 10% up on entry, 50% above the short mean
    assert_eq!(exit_reason(&p, 110, 73, &risk()), Some(ExitReason::Unstable));
    assert_eq!(exit_reason(&p, 110, 74, &risk()), None);
    assert_eq!(exit_reason(&p, 110, 0, &risk()), None);
}

#[test]
fn position_with_entry_price_zero_meets_no_entry_relative_rule() {
    let p = position(7, 0, 3);
    assert_eq!(exit_reason(&p, 0, 0, &risk()), None);
    assert_eq!(exit_reason(&p, 50, 50, &risk()), None);
}

#[test]
fn exits_are_judged_per_position() {
    let mut ts = TradingStrategy::new(5);
    ts.confirm_entry(Ok(position(1, 100, 1))).unwrap();
    ts.confirm_entry(Ok(position(2, 90, 1))).unwrap();
    ts.confirm_entry(Ok(position(3, 80, 1))).unwrap();
    // at 95: position 1 lost 5%, position 2 gained 5.5%, position 3 gained 18.75%
    let mut exits = ts.check_exit_signals(95, 95, &strategy());
    exits.sort_by_key(|e| e.0);
    assert_eq!(exits, vec![(1, ExitReason::StopLoss), (3, ExitReason::ProfitTarget)]);
}

#[test]
fn no_exits_without_positions() {
    let ts = TradingStrategy::new(5);
    assert!(ts.check_exit_signals(95, 95, &strategy()).is_empty());
}
