use mean_reversion::api::error::ApiError;
use mean_reversion::api::supported_api::Api;
use mean_reversion::engine::bot::{
    credit, debit, Bot, BotState, CycleSummary, TRADING_CYCLE_RECOVERY_PERIOD,
};
use mean_reversion::engine::market::{Position, ProcessedCandle};
use mean_reversion::engine::trading_strategy::ExitReason;
use mean_reversion::strategy::mean_calculation::MeanCalculationMethod;
use mean_reversion::strategy::strategy::{Exchange, MeasurementDeviation, RiskManagement, Strategy};
use mean_reversion::strategy::timeframe::{PeriodMeasurement, StrategyTimeframe};
use time::UtcDateTime;

fn strategy_with(measure_bars: usize, max_positions: usize) -> Strategy {
    Strategy {
        symbol: "BTCUSDT".to_string(),
        trading_symbol: "USDT".to_string(),
        pair: "BTC/USDT".to_string(),
        exchange: Exchange { api: Api::Binance },
        timeframe: StrategyTimeframe {
            interval: "1h".to_string(),
            tick: 900,
            period_measurement: PeriodMeasurement {
                measure_bars,
                mean_calculation_method: MeanCalculationMethod::SimpleMA,
            },
        },
        risk_management: RiskManagement {
            capital_per_trade: 100_000,
            max_positions,
            max_drawdown: 500_000,
            stop_loss: 30_000,
            profit_level: 150_000,
        },
        measurement_deviation: MeasurementDeviation { enter_deviation: 10_000_000 },
    }
}

fn candle(timestamp: u64, close: u64) -> ProcessedCandle {
    ProcessedCandle { timestamp, open: close, high: close, low: close, close, volume: 1 }
}

fn seed(closes: &[u64]) -> Vec<ProcessedCandle> {
    closes.iter().enumerate().map(|(i, c)| candle(i as u64, *c)).collect()
}

fn running_bot(measure_bars: usize, max_positions: usize, closes: &[u64], balance: i128) -> Bot {
    let mut bot = Bot::new(strategy_with(measure_bars, max_positions)).unwrap();
    bot.begin_initialize().unwrap();
    bot.initialize(Ok(seed(closes)), Ok(balance)).unwrap();
    bot
}

#[test]
fn new_engine_has_fetched_nothing() {
    let bot = Bot::new(strategy_with(20, 5)).unwrap();
    assert_eq!(bot.current_state(), BotState::Uninitialized);
    assert_eq!(bot.account_balance(), 0);
    assert_eq!(bot.open_positions_count(), 0);
    assert!(bot.candles().is_empty());
    assert_eq!(bot.means(), (0, 0));
}

#[test]
fn engine_refuses_a_balance_held_in_the_instrument() {
    let mut s = strategy_with(20, 5);
    s.trading_symbol = "BTCUSDT".to_string();
    assert!(matches!(Bot::new(s), Err(ApiError::ValidationError(_))));
}

#[test]
fn engine_refuses_a_method_without_computation() {
    let mut s = strategy_with(20, 5);
    s.timeframe.period_measurement.mean_calculation_method = MeanCalculationMethod::EMA;
    assert!(matches!(Bot::new(s), Err(ApiError::ValidationError(_))));
}

#[test]
fn engine_refuses_a_window_too_long_to_seed() {
    let s = strategy_with(usize::MAX / 2, 5);
    assert!(matches!(Bot::new(s), Err(ApiError::ValidationError(_))));
}

#[test]
fn seeding_asks_for_three_long_windows() {
    let mut bot = Bot::new(strategy_with(20, 5)).unwrap();
    let request = bot.begin_initialize().unwrap();
    assert_eq!(request.candles_count(), 60);
    assert_eq!(request.symbol(), "BTCUSDT");
    assert_eq!(request.interval(), 3_600);
    assert_eq!(request.time_bounds(), (None, None));
    assert_eq!(bot.current_state(), BotState::Initializing);
}

#[test]
fn seeding_starts_only_once() {
    let mut bot = Bot::new(strategy_with(20, 5)).unwrap();
    bot.begin_initialize().unwrap();
    assert!(matches!(bot.begin_initialize(), Err(ApiError::ValidationError(_))));
    assert_eq!(bot.current_state(), BotState::Initializing);
}

#[test]
fn unreadable_interval_fails_the_engine() {
    let mut s = strategy_with(20, 5);
    s.timeframe.interval = "soon".to_string();
    let mut bot = Bot::new(s).unwrap();
    assert!(matches!(bot.begin_initialize(), Err(ApiError::ParseError(_))));
    assert_eq!(bot.current_state(), BotState::Failed);
}

#[test]
fn seed_feeds_all_into_long_and_recent_third_into_short() {
    // long window 3, short window 1, nine candles
    let bot = running_bot(3, 5, &[10, 20, 30, 40, 50, 60, 70, 80, 90], 5_000);
    assert_eq!(bot.current_state(), BotState::Running);
    assert_eq!(bot.account_balance(), 5_000);
    assert_eq!(bot.candles().len(), 9);
    // short: the last of 70, 80, 90; long: the mean of 70, 80, 90
    assert_eq!(bot.means(), (90, 80));
}

#[test]
fn short_window_sees_only_the_recent_third() {
    // long window 6, short window 2, four candles: the recent third is one candle
    let bot = running_bot(6, 5, &[10, 20, 30, 40], 0);
    assert_eq!(bot.means(), (40, 25));
}

#[test]
fn initialize_before_seeding_started_is_refused() {
    let mut bot = Bot::new(strategy_with(3, 5)).unwrap();
    let r = bot.initialize(Ok(seed(&[1, 2, 3])), Ok(10));
    assert!(matches!(r, Err(ApiError::ValidationError(_))));
    assert_eq!(bot.current_state(), BotState::Uninitialized);
    assert_eq!(bot.account_balance(), 0);
}

#[test]
fn failed_seed_fetch_is_fatal() {
    let mut bot = Bot::new(strategy_with(3, 5)).unwrap();
    bot.begin_initialize().unwrap();
    let r = bot.initialize(Err(ApiError::NetworkError("down".to_string())), Ok(10));
    assert!(matches!(r, Err(ApiError::NetworkError(ref s)) if s == "down"));
    assert_eq!(bot.current_state(), BotState::Failed);
}

#[test]
fn failed_balance_fetch_is_fatal() {
    let mut bot = Bot::new(strategy_with(3, 5)).unwrap();
    bot.begin_initialize().unwrap();
    let r = bot.initialize(Ok(seed(&[1, 2, 3])), Err(ApiError::ParseError("bad".to_string())));
    assert!(matches!(r, Err(ApiError::ParseError(ref s)) if s == "bad"));
    assert_eq!(bot.current_state(), BotState::Failed);
    assert!(bot.candles().is_empty());
    assert_eq!(bot.means(), (0, 0));
}

#[test]
fn empty_seed_is_a_market_error() {
    let mut bot = Bot::new(strategy_with(3, 5)).unwrap();
    bot.begin_initialize().unwrap();
    let r = bot.initialize(Ok(Vec::new()), Ok(10));
    assert!(matches!(r, Err(ApiError::MarketError(_))));
    assert_eq!(bot.current_state(), BotState::Failed);
}

#[test]
fn observing_updates_both_means() {
    let mut bot = running_bot(3, 5, &[100, 100, 100, 100, 100, 100, 100, 100, 100], 1_000_000);
    let reading = bot.observe(&candle(9, 70));
    assert_eq!(reading.price, 70);
    assert_eq!(reading.short_mean, 70);
    assert_eq!(reading.long_mean, 90);
    // (70 - 90) / 90 = -22.222222%
    assert_eq!(reading.deviation, Some(-22_222_222));
    assert_eq!(bot.candles().len(), 9);
}

#[test]
fn full_cycle_opens_then_closes() {
    let mut bot = running_bot(3, 2, &[100, 100, 100, 100, 100, 100, 100, 100, 100], 1_000_000);

    // the price drops: an entry of a tenth of the balance
    let latest = candle(9, 70);
    let reading = bot.observe(&latest);
    assert!(bot.exit_signals(reading.price).is_empty());
    let quantity = bot.entry_signal(reading.price).unwrap();
    assert_eq!(quantity, 100_000 / 70);
    let bought = Position::new("BTCUSDT".to_string(), 70, quantity, UtcDateTime::UNIX_EPOCH);
    let id = bought.id;
    assert_eq!(bot.settle_entry(Ok(bought)).unwrap(), 70 * 1_428);
    assert_eq!(bot.account_balance(), 1_000_000 - 99_960);
    let summary = bot.finish_cycle(latest);
    assert_eq!(
        summary,
        CycleSummary { balance: 900_040, open_positions: 1, deviation: Some(-22_222_222) }
    );
    assert_eq!(bot.candles().len(), 9);
    assert_eq!(bot.candles()[8].close, 70);
    assert_eq!(bot.candles()[0].timestamp, 1);

    // the price recovers past the profit level: the position is closed
    let latest = candle(10, 85);
    let reading = bot.observe(&latest);
    let exits = bot.exit_signals(reading.price);
    assert_eq!(exits, vec![(id, ExitReason::ProfitTarget)]);
    assert_eq!(bot.settle_exit(id, reading.price, Ok(())).unwrap(), 85 * 1_428);
    assert_eq!(bot.account_balance(), 900_040 + 121_380);
    assert_eq!(bot.open_positions_count(), 0);
    assert_eq!(bot.entry_signal(reading.price), None);
}

#[test]
fn failed_orders_leave_balance_and_positions() {
    let mut bot = running_bot(3, 2, &[100; 9], 1_000_000);
    bot.observe(&candle(9, 70));
    let r = bot.settle_entry(Err(ApiError::OrderError("no".to_string())));
    assert!(matches!(r, Err(ApiError::OrderError(_))));
    assert_eq!(bot.account_balance(), 1_000_000);
    assert_eq!(bot.open_positions_count(), 0);

    let bought = Position::new("BTCUSDT".to_string(), 70, 10, UtcDateTime::UNIX_EPOCH);
    let id = bought.id;
    bot.settle_entry(Ok(bought)).unwrap();
    let r = bot.settle_exit(id, 60, Err(ApiError::NetworkError("no".to_string())));
    assert!(matches!(r, Err(ApiError::NetworkError(_))));
    assert_eq!(bot.account_balance(), 1_000_000 - 700);
    assert_eq!(bot.open_positions_count(), 1);
    assert!(bot.get_position(id).is_some());

    let r = bot.settle_exit(id.wrapping_add(1), 60, Ok(()));
    assert!(matches!(r, Err(ApiError::NotFound(_))));
    assert_eq!(bot.account_balance(), 1_000_000 - 700);
    assert_eq!(bot.open_positions_count(), 1);
}

#[test]
fn entry_outcome_at_capacity_is_refused() {
    let mut bot = running_bot(3, 1, &[100; 9], 1_000_000);
    bot.settle_entry(Ok(Position::new("BTCUSDT".to_string(), 70, 10, UtcDateTime::UNIX_EPOCH))).unwrap();
    let r = bot.settle_entry(Ok(Position::new("BTCUSDT".to_string(), 70, 10, UtcDateTime::UNIX_EPOCH)));
    assert!(matches!(r, Err(ApiError::CapacityError(_))));
    assert_eq!(bot.open_positions_count(), 1);
    assert_eq!(bot.account_balance(), 1_000_000 - 700);
}

#[test]
fn open_then_close_at_unchanged_price_restores_the_balance() {
    let mut bot = running_bot(3, 1, &[100; 9], 1_000_000);
    let bought = Position::new("BTCUSDT".to_string(), 123, 456, UtcDateTime::UNIX_EPOCH);
    let id = bought.id;
    bot.settle_entry(Ok(bought)).unwrap();
    bot.settle_exit(id, 123, Ok(())).unwrap();
    assert_eq!(bot.account_balance(), 1_000_000);
    assert_eq!(bot.open_positions_count(), 0);
}

#[test]
fn balance_may_become_negative() {
    let mut bot = running_bot(3, 1, &[100; 9], 500);
    bot.settle_entry(Ok(Position::new("BTCUSDT".to_string(), 70, 10, UtcDateTime::UNIX_EPOCH))).unwrap();
    assert_eq!(bot.account_balance(), -200);
    bot.observe(&candle(9, 1));
    assert_eq!(bot.entry_signal(1), None);
}

#[test]
fn history_keeps_three_long_windows() {
    let mut bot = running_bot(2, 1, &[1, 2, 3, 4], 0);
    bot.finish_cycle(candle(10, 5));
    bot.finish_cycle(candle(11, 6));
    assert_eq!(bot.candles().len(), 6);
    bot.finish_cycle(candle(12, 7));
    assert_eq!(bot.candles().len(), 6);
    let closes: Vec<u64> = bot.candles().iter().map(|c| c.close).collect();
    assert_eq!(closes, vec![2, 3, 4, 5, 6, 7]);
}

#[test]
fn ledger_arithmetic_at_the_limits() {
    assert_eq!(TRADING_CYCLE_RECOVERY_PERIOD, 30);
    assert_eq!(credit(-5, 12), 7);
    assert_eq!(debit(5, 12), -7);
    assert_eq!(credit(i128::MIN, u128::MAX), i128::MAX);
    assert_eq!(debit(i128::MAX, u128::MAX), i128::MIN);
    assert_eq!(credit(-1, i128::MAX as u128 + 1), i128::MAX);
    assert_eq!(debit(0, i128::MAX as u128 + 1), i128::MIN);
    assert_eq!(credit(-3, i128::MAX as u128 + 2), i128::MAX - 1);
}
