use mean_reversion::api::client::KLineParams;
use mean_reversion::api::error::ApiError;
use mean_reversion::api::supported_api::Api;
use mean_reversion::strategy::mean_calculation::MeanCalculationMethod;
use mean_reversion::strategy::strategy::{Exchange, MeasurementDeviation, RiskManagement, Strategy};
use mean_reversion::strategy::timeframe::{
    duration_from_kline_interval, parse_interval, PeriodMeasurement, StrategyTimeframe,
};

fn build(symbol: &str, trading_symbol: &str, method: MeanCalculationMethod) -> Result<Strategy, ApiError> {
    Strategy::new(
        symbol.to_string(),
        trading_symbol.to_string(),
        "BTC/USDT".to_string(),
        Exchange { api: Api::Binance },
        StrategyTimeframe {
            interval: "1h".to_string(),
            tick: 15 * 60,
            period_measurement: PeriodMeasurement { measure_bars: 20, mean_calculation_method: method },
        },
        RiskManagement {
            capital_per_trade: 100_000,
            max_positions: 5,
            max_drawdown: 500_000,
            stop_loss: 300_000,
            profit_level: 150_000,
        },
        MeasurementDeviation { enter_deviation: 100_000 },
    )
}

#[test]
fn valid_strategy_is_built_as_given() {
    let s = build("BTCUSDT", "USDT", MeanCalculationMethod::SimpleMA).unwrap();
    assert_eq!(s.symbol, "BTCUSDT");
    assert_eq!(s.trading_symbol, "USDT");
    assert_eq!(s.pair, "BTC/USDT");
    assert_eq!(duration_from_kline_interval(&s.timeframe.interval), Some(60 * 60));
    assert_eq!(s.timeframe.tick, 60 * 15);
    assert_eq!(s.exchange.api, Api::Binance);
    assert_eq!(s.risk_management.capital_per_trade, 100_000);
    assert_eq!(s.risk_management.max_positions, 5);
    assert_eq!(s.risk_management.max_drawdown, 500_000);
    assert_eq!(s.risk_management.stop_loss, 300_000);
    assert_eq!(s.risk_management.profit_level, 150_000);
    assert_eq!(s.measurement_deviation.enter_deviation, 100_000);
    assert_eq!(s.timeframe.period_measurement.measure_bars, 20);
    assert!(s.validate().is_ok());
}

#[test]
fn strategy_with_equal_symbols_is_refused() {
    let r = build("USDT", "USDT", MeanCalculationMethod::SimpleMA);
    assert!(matches!(r, Err(ApiError::ValidationError(_))));
}

#[test]
fn strategy_with_unsupported_method_is_refused() {
    for method in [MeanCalculationMethod::EMA, MeanCalculationMethod::VMAP] {
        let r = build("BTCUSDT", "USDT", method);
        assert!(matches!(r, Err(ApiError::ValidationError(ref s)) if s == "unsupported calculation method"));
    }
}

#[test]
fn intervals_in_each_unit() {
    assert_eq!(duration_from_kline_interval("1s"), Some(1));
    assert_eq!(duration_from_kline_interval("1m"), Some(60));
    assert_eq!(duration_from_kline_interval("15m"), Some(900));
    assert_eq!(duration_from_kline_interval("1h"), Some(3_600));
    assert_eq!(duration_from_kline_interval("2h"), Some(7_200));
    assert_eq!(duration_from_kline_interval("12h"), Some(43_200));
    assert_eq!(duration_from_kline_interval("1d"), Some(86_400));
    assert_eq!(duration_from_kline_interval("3d"), Some(259_200));
    assert_eq!(duration_from_kline_interval("1w"), Some(604_800));
    assert_eq!(duration_from_kline_interval("007m"), Some(420));
    assert_eq!(duration_from_kline_interval("0h"), Some(0));
}

#[test]
fn texts_that_are_no_interval() {
    for text in ["", "1", "h", "1M", "1H", "1 h", "-1h", "1.5h", "h1", "1hh", "1h ", "é1h", "1é"] {
        assert_eq!(duration_from_kline_interval(text), None, "{:?}", text);
    }
}

#[test]
fn intervals_at_the_limit_of_the_result() {
    assert_eq!(duration_from_kline_interval("18446744073709551615s"), Some(u64::MAX));
    assert_eq!(duration_from_kline_interval("18446744073709551616s"), None);
    assert_eq!(duration_from_kline_interval("99999999999999999999999999s"), None);
    assert_eq!(duration_from_kline_interval("307445734561825860m"), Some(18446744073709551600));
    assert_eq!(duration_from_kline_interval("307445734561825861m"), None);
    assert_eq!(parse_interval(b"30m"), Some(1_800));
    assert_eq!(parse_interval(&[0x31, 0xff]), None);
}

#[test]
fn request_is_built_unbounded() {
    let p = KLineParams::build(60, "BTCUSDT".to_string(), 3_600);
    assert_eq!(p.candles_count(), 60);
    assert_eq!(p.symbol(), "BTCUSDT");
    assert_eq!(p.interval(), 3_600);
    assert_eq!(p.time_bounds(), (None, None));
}

#[test]
fn request_bounds_are_set_one_by_one() {
    let p = KLineParams::build(60, "BTCUSDT".to_string(), 3_600).end_time(2_000);
    assert_eq!(p.time_bounds(), (None, Some(2_000)));
    let p = p.start_time(1_000);
    assert_eq!(p.time_bounds(), (Some(1_000), Some(2_000)));
    assert_eq!(p.candles_count(), 60);
    assert_eq!(p.symbol(), "BTCUSDT");
    assert_eq!(p.interval(), 3_600);
    let p = p.start_time(5).end_time(6);
    assert_eq!(p.time_bounds(), (Some(5), Some(6)));
}

#[test]
fn request_for_a_strategy() {
    let s = build("BTCUSDT", "USDT", MeanCalculationMethod::SimpleMA).unwrap();
    let p = KLineParams::new(&s).unwrap();
    assert_eq!(p.candles_count(), 20);
    assert_eq!(p.symbol(), "BTCUSDT");
    assert_eq!(p.interval(), 3_600);
    assert_eq!(p.time_bounds(), (None, None));
}

#[test]
fn request_for_a_strategy_with_unreadable_interval() {
    let mut s = build("BTCUSDT", "USDT", MeanCalculationMethod::SimpleMA).unwrap();
    s.timeframe.interval = "hourly".to_string();
    assert!(matches!(KLineParams::new(&s), Err(ApiError::ParseError(_))));
}
