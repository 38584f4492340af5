//! The scheduler: the state of one engine and the steps of its cycle.
//!
//! The engine talks to no venue. Its caller runs the loop: it fetches, places
//! orders and waits, and hands each outcome to the step that follows. A step
//! changes the state only by what was confirmed, so a cycle that fails midway
//! leaves the balance and the positions as the confirmed orders made them.
//!
//! The balance is a signed value. It goes down by what a confirmed buy cost at
//! the venue's price and up by what a confirmed sell brought, and it may
//! become negative where the venue filled above the balance. An entry is sized
//! from the balance, so a balance of zero or less opens nothing.

use crate::api::client::KLineParams;
use crate::api::error::ApiError;
use crate::engine::market::Position;
use crate::engine::market::ProcessedCandle;
use crate::engine::trading_strategy::deviation;
use crate::engine::trading_strategy::deviation_of;
use crate::engine::trading_strategy::entry_order;
use crate::engine::trading_strategy::exits_cover;
use crate::engine::trading_strategy::ExitReason;
use crate::engine::trading_strategy::TradingStrategy;
use crate::strategy::mean_calculation::mean_of;
use crate::strategy::mean_calculation::window_after;
use crate::strategy::mean_calculation::window_push;
use crate::strategy::mean_calculation::MaTracker;
use crate::strategy::mean_calculation::MeanCalculation;
use crate::strategy::strategy::Strategy;
use crate::strategy::timeframe::duration_from_kline_interval;
use crate::strategy::timeframe::interval_of;
use vstd::prelude::*;

verus! {

/// How many times the short window goes into the long one, and how many long
/// windows of candles are kept and asked for as seed.
pub const MA_PERIOD_DIFFERENCE: usize = 3;

/// The pause after a cycle that failed, in seconds. A failed cycle never ends
/// the loop.
pub const TRADING_CYCLE_RECOVERY_PERIOD: u64 = 30;

/// Where the scheduler stands.
#[derive(Debug, Clone, Copy, PartialEq, Eq, Structural)]
pub enum BotState {
    /// Built, nothing fetched yet.
    Uninitialized,
    /// The seed window and the starting balance are being fetched.
    Initializing,
    /// Seeded: cycles run.
    Running,
    /// Seeding failed. No cycle runs.
    Failed,
}

/// What a cycle read from the market.
#[derive(Debug, Clone, Copy, PartialEq, Eq, Structural)]
pub struct CycleReading {
    /// The close of the latest candle.
    pub price: u64,
    pub short_mean: u64,
    pub long_mean: u64,
    /// The deviation of the short mean from the long mean in millionths of a
    /// percent; none while the long mean is 0.
    pub deviation: Option<i128>,
}

/// What a cycle reports when it is over.
#[derive(Debug, Clone, Copy, PartialEq, Eq, Structural)]
pub struct CycleSummary {
    pub balance: i128,
    pub open_positions: usize,
    pub deviation: Option<i128>,
}

/// The closing prices of `candles`, in order.
pub open spec fn closes(candles: Seq<ProcessedCandle>) -> Seq<u64> {
    candles.map_values(|candle: ProcessedCandle| candle.close)
}

/// The most recent third of `candles`.
pub open spec fn recent_third(candles: Seq<ProcessedCandle>) -> Seq<ProcessedCandle> {
    candles.skip(candles.len() - candles.len() / 3)
}

/// The history after `candle` is appended under a limit of `limit` candles:
/// the oldest leaves when the limit is exceeded.
pub open spec fn history_push(
    history: Seq<ProcessedCandle>,
    candle: ProcessedCandle,
    limit: nat,
) -> Seq<ProcessedCandle> {
    let grown = history.push(candle);
    if grown.len() > limit {
        grown.remove(0)
    } else {
        grown
    }
}

/// Whether `balance` can take `amount` more.
pub fn can_credit(balance: i128, amount: u128) -> (r: bool)
    ensures
        r == (balance + amount <= i128::MAX),
{
    if amount <= i128::MAX as u128 {
        balance <= i128::MAX - amount as i128
    } else if balance < 0 {
        let rest: u128 = amount - i128::MAX as u128;
        let below: u128 = (-(balance + 1)) as u128 + 1;
        rest <= below
    } else {
        false
    }
}

/// Whether `amount` can be taken off `balance`.
pub fn can_debit(balance: i128, amount: u128) -> (r: bool)
    ensures
        r == (balance - amount >= i128::MIN),
{
    let span: u128 = i128::MAX as u128 + 1;
    if balance >= 0 {
        amount <= balance as u128 + span
    } else {
        let below: u128 = (-(balance + 1)) as u128 + 1;
        amount <= span - below
    }
}

/// `balance` with `amount` added.
pub fn credit(balance: i128, amount: u128) -> (r: i128)
    requires
        balance + amount <= i128::MAX,
    ensures
        r == balance + amount,
{
    if amount <= i128::MAX as u128 {
        balance + amount as i128
    } else {
        let partial: i128 = balance + i128::MAX;
        let rest: u128 = amount - i128::MAX as u128;
        if rest <= i128::MAX as u128 {
            partial + rest as i128
        } else {
            i128::MAX
        }
    }
}

/// `balance` with `amount` taken off.
pub fn debit(balance: i128, amount: u128) -> (r: i128)
    requires
        balance - amount >= i128::MIN,
    ensures
        r == balance - amount,
{
    if amount <= i128::MAX as u128 {
        balance - amount as i128
    } else {
        let partial: i128 = balance - i128::MAX;
        let rest: u128 = amount - i128::MAX as u128;
        if rest <= i128::MAX as u128 {
            partial - rest as i128
        } else {
            i128::MIN
        }
    }
}

/// Feeds the closes of `candles`, from index `from` on, into `tracker`.
fn feed(tracker: &mut MaTracker, candles: &Vec<ProcessedCandle>, from: usize)
    requires
        old(tracker).wf(),
        from <= candles@.len(),
    ensures
        final(tracker).wf(),
        final(tracker).spec_period() == old(tracker).spec_period(),
        final(tracker).window() == window_after(
            old(tracker).window(),
            closes(candles@.skip(from as int)),
            old(tracker).spec_period(),
        ),
{
    let mut i: usize = from;
    proof {
        assert(closes(candles@.subrange(from as int, from as int)) =~= Seq::<u64>::empty());
    }
    while i < candles.len()
        invariant
            from <= i <= candles@.len(),
            tracker.wf(),
            tracker.spec_period() == old(tracker).spec_period(),
            tracker.window() == window_after(
                old(tracker).window(),
                closes(candles@.subrange(from as int, i as int)),
                old(tracker).spec_period(),
            ),
        decreases candles@.len() - i,
    {
        proof {
            let wider = closes(candles@.subrange(from as int, i as int + 1));
            assert(wider.drop_last() =~= closes(candles@.subrange(from as int, i as int)));
            assert(wider.last() == candles@[i as int].close);
        }
        tracker.update(candles[i].close);
        i = i + 1;
    }
    proof {
        assert(candles@.subrange(from as int, i as int) =~= candles@.skip(from as int));
    }
}

/// One engine: its configuration, its two means, its positions, its balance,
/// the candles it has seen, and where its scheduler stands.
pub struct Bot {
    strategy: Strategy,
    long_ma: MaTracker,
    short_ma: MaTracker,
    candles: Vec<ProcessedCandle>,
    account_balance: i128,
    trading_strategy: TradingStrategy,
    state: BotState,
}

impl Bot {
    pub closed spec fn strategy(&self) -> Strategy {
        self.strategy
    }

    /// The tracker of the long mean.
    pub closed spec fn long_tracker(&self) -> MaTracker {
        self.long_ma
    }

    /// The tracker of the short mean.
    pub closed spec fn short_tracker(&self) -> MaTracker {
        self.short_ma
    }

    /// The candles kept, oldest first.
    pub closed spec fn history(&self) -> Seq<ProcessedCandle> {
        self.candles@
    }

    pub closed spec fn balance(&self) -> int {
        self.account_balance as int
    }

    pub closed spec fn trading(&self) -> TradingStrategy {
        self.trading_strategy
    }

    pub closed spec fn state(&self) -> BotState {
        self.state
    }

    /// The open positions, by identifier.
    pub open spec fn positions(&self) -> Map<u128, Position> {
        self.trading().positions()
    }

    /// The number of candles in the long window.
    pub open spec fn long_period(&self) -> nat {
        self.strategy().timeframe.period_measurement.measure_bars as nat
    }

    /// The number of candles that are kept, and that the seed asks for.
    pub open spec fn history_limit(&self) -> nat {
        self.long_period() * 3
    }

    /// Whether a strategy can drive an engine: it is acceptable, and three
    /// times its long window is a number of candles that can be asked for.
    pub open spec fn drivable(strategy: Strategy) -> bool {
        &&& strategy.acceptable()
        &&& strategy.timeframe.period_measurement.measure_bars * 3 <= usize::MAX
    }

    /// The parts agree with the configuration: the long window spans the
    /// configured number of candles and the short window a third of it, and
    /// no more positions can be open than the configuration allows.
    pub open spec fn wf(&self) -> bool {
        &&& Self::drivable(self.strategy())
        &&& self.long_tracker().wf()
        &&& self.short_tracker().wf()
        &&& self.long_tracker().spec_period() == self.long_period()
        &&& self.short_tracker().spec_period() == self.long_period() / 3
        &&& self.trading().wf()
        &&& self.trading().manager().capacity() == self.strategy().risk_management.max_positions
    }

    /// Everything but the balance and the positions is as in `before`.
    pub open spec fn market_side_as(&self, before: &Bot) -> bool {
        &&& self.strategy() == before.strategy()
        &&& self.long_tracker() == before.long_tracker()
        &&& self.short_tracker() == before.short_tracker()
        &&& self.history() == before.history()
        &&& self.state() == before.state()
    }

    /// The balance and the positions are as in `before`.
    pub open spec fn trading_side_as(&self, before: &Bot) -> bool {
        &&& self.strategy() == before.strategy()
        &&& self.balance() == before.balance()
        &&& self.trading() == before.trading()
    }

    /// An engine for `strategy` that has fetched nothing yet. A strategy that
    /// cannot drive an engine is refused.
    pub fn new(strategy: Strategy) -> (r: Result<Self, ApiError>)
        ensures
            match r {
                Ok(bot) => {
                    &&& Self::drivable(strategy)
                    &&& bot.wf()
                    &&& bot.strategy() == strategy
                    &&& bot.state() == BotState::Uninitialized
                    &&& bot.balance() == 0
                    &&& bot.history() == Seq::<ProcessedCandle>::empty()
                    &&& bot.long_tracker().window() == Seq::<u64>::empty()
                    &&& bot.short_tracker().window() == Seq::<u64>::empty()
                    &&& bot.positions() == Map::<u128, Position>::empty()
                },
                Err(error) => error is ValidationError && !Self::drivable(strategy),
            },
    {
        match strategy.validate() {
            Ok(_) => {},
            Err(error) => {
                return Err(error);
            },
        }
        let long_period = strategy.timeframe.period_measurement.measure_bars;
        if long_period > usize::MAX / MA_PERIOD_DIFFERENCE {
            return Err(ApiError::ValidationError("measure_bars is out of range".to_string()));
        }
        let short_period = long_period / MA_PERIOD_DIFFERENCE;
        let method = strategy.timeframe.period_measurement.mean_calculation_method;
        let long_ma = match MaTracker::new(long_period, method) {
            Ok(tracker) => tracker,
            Err(error) => {
                return Err(error);
            },
        };
        let short_ma = match MaTracker::new(short_period, method) {
            Ok(tracker) => tracker,
            Err(error) => {
                return Err(error);
            },
        };
        let trading_strategy = TradingStrategy::new(strategy.risk_management.max_positions);
        Ok(
            Self {
                trading_strategy,
                account_balance: 0,
                candles: Vec::new(),
                long_ma,
                short_ma,
                strategy,
                state: BotState::Uninitialized,
            },
        )
    }

    /// Starts the seeding: the request for the seed window, three long
    /// windows of candles of the strategy's instrument and interval.
    ///
    /// Only an engine that has fetched nothing yet can start; any other is
    /// left as it is. An interval that cannot be read fails the engine.
    pub fn begin_initialize(&mut self) -> (r: Result<KLineParams, ApiError>)
        requires
            old(self).wf(),
        ensures
            final(self).wf(),
            final(self).trading_side_as(old(self)),
            final(self).long_tracker() == old(self).long_tracker(),
            final(self).short_tracker() == old(self).short_tracker(),
            final(self).history() == old(self).history(),
            old(self).state() != BotState::Uninitialized ==> {
                &&& r is Err
                &&& r->Err_0 is ValidationError
                &&& final(self).state() == old(self).state()
            },
            old(self).state() == BotState::Uninitialized ==> match interval_of(
                old(self).strategy().timeframe.interval@,
            ) {
                Some(seconds) => {
                    &&& r is Ok
                    &&& r->Ok_0.spec_candles_count() == old(self).history_limit()
                    &&& r->Ok_0.spec_symbol() == old(self).strategy().symbol
                    &&& r->Ok_0.spec_interval() == seconds
                    &&& r->Ok_0.spec_start_time() is None
                    &&& r->Ok_0.spec_end_time() is None
                    &&& final(self).state() == BotState::Initializing
                },
                None => {
                    &&& r is Err
                    &&& r->Err_0 is ParseError
                    &&& final(self).state() == BotState::Failed
                },
            },
    {
        if self.state != BotState::Uninitialized {
            return Err(ApiError::ValidationError("The engine was started before".to_string()));
        }
        match duration_from_kline_interval(self.strategy.timeframe.interval.as_str()) {
            Some(seconds) => {
                self.state = BotState::Initializing;
                Ok(
                    KLineParams::build(
                        self.strategy.timeframe.period_measurement.measure_bars
                            * MA_PERIOD_DIFFERENCE,
                        self.strategy.symbol.clone(),
                        seconds,
                    ),
                )
            },
            None => {
                self.state = BotState::Failed;
                Err(ApiError::ParseError("Invalid interval provided".to_string()))
            },
        }
    }

    /// Ends the seeding with what was fetched: the seed window, oldest candle
    /// first, and the starting balance.
    ///
    /// Where both were fetched and the window is not empty, every close goes
    /// into the long mean and those of the most recent third into the short
    /// mean, the candles become the history, the balance is the one fetched,
    /// and cycles can run. Any failure is final: a fetch that failed hands its
    /// error on, that of the window first, and an empty window is a market
    /// error. An engine that is not seeding is left as it is.
    pub fn initialize(
        &mut self,
        seed: Result<Vec<ProcessedCandle>, ApiError>,
        starting_balance: Result<i128, ApiError>,
    ) -> (r: Result<(), ApiError>)
        requires
            old(self).wf(),
        ensures
            final(self).wf(),
            final(self).strategy() == old(self).strategy(),
            final(self).trading() == old(self).trading(),
            old(self).state() != BotState::Initializing ==> {
                &&& r is Err
                &&& r->Err_0 is ValidationError
                &&& final(self).market_side_as(old(self))
                &&& final(self).balance() == old(self).balance()
            },
            old(self).state() == BotState::Initializing ==> match (seed, starting_balance) {
                (Ok(candles), Ok(funds)) if candles@.len() > 0 => {
                    &&& r is Ok
                    &&& final(self).state() == BotState::Running
                    &&& final(self).history() == candles@
                    &&& final(self).balance() == funds
                    &&& final(self).long_tracker().window() == window_after(
                        old(self).long_tracker().window(),
                        closes(candles@),
                        old(self).long_period(),
                    )
                    &&& final(self).short_tracker().window() == window_after(
                        old(self).short_tracker().window(),
                        closes(recent_third(candles@)),
                        old(self).long_period() / 3,
                    )
                },
                _ => {
                    &&& r is Err
                    &&& final(self).state() == BotState::Failed
                    &&& final(self).long_tracker() == old(self).long_tracker()
                    &&& final(self).short_tracker() == old(self).short_tracker()
                    &&& final(self).history() == old(self).history()
                    &&& final(self).balance() == old(self).balance()
                    &&& match seed {
                        Err(error) => r->Err_0 == error,
                        Ok(_) => match starting_balance {
                            Err(error) => r->Err_0 == error,
                            Ok(_) => r->Err_0 is MarketError,
                        },
                    }
                },
            },
    {
        if self.state != BotState::Initializing {
            return Err(ApiError::ValidationError("The engine is not being seeded".to_string()));
        }
        let candles = match seed {
            Ok(candles) => candles,
            Err(error) => {
                self.state = BotState::Failed;
                return Err(error);
            },
        };
        let funds = match starting_balance {
            Ok(funds) => funds,
            Err(error) => {
                self.state = BotState::Failed;
                return Err(error);
            },
        };
        if candles.len() == 0 {
            self.state = BotState::Failed;
            return Err(ApiError::MarketError("No data received".to_string()));
        }
        let third = candles.len() / MA_PERIOD_DIFFERENCE;
        feed(&mut self.long_ma, &candles, 0);
        feed(&mut self.short_ma, &candles, candles.len() - third);
        proof {
            assert(candles@.skip(0) =~= candles@);
        }
        self.candles = candles;
        self.account_balance = funds;
        self.state = BotState::Running;
        Ok(())
    }

    /// Takes the latest candle into both means and reads the market from
    /// them: the price is the candle's close.
    pub fn observe(&mut self, latest: &ProcessedCandle) -> (r: CycleReading)
        requires
            old(self).wf(),
            old(self).state() == BotState::Running,
        ensures
            final(self).wf(),
            final(self).trading_side_as(old(self)),
            final(self).state() == old(self).state(),
            final(self).history() == old(self).history(),
            final(self).long_tracker().window() == window_push(
                old(self).long_tracker().window(),
                latest.close,
                old(self).long_period(),
            ),
            final(self).short_tracker().window() == window_push(
                old(self).short_tracker().window(),
                latest.close,
                old(self).long_period() / 3,
            ),
            r.price == latest.close,
            r.short_mean == mean_of(final(self).short_tracker().window()),
            r.long_mean == mean_of(final(self).long_tracker().window()),
            r.deviation == final(self).spec_deviation(),
    {
        let short_mean = self.short_ma.update(latest.close);
        let long_mean = self.long_ma.update(latest.close);
        CycleReading {
            price: latest.close,
            short_mean,
            long_mean,
            deviation: deviation(short_mean, long_mean),
        }
    }

    /// The deviation of the short mean from the long mean as they stand; none
    /// while the long mean is 0.
    pub open spec fn spec_deviation(&self) -> Option<i128> {
        let short_mean = mean_of(self.short_tracker().window()) as u64;
        let long_mean = mean_of(self.long_tracker().window()) as u64;
        if long_mean == 0 {
            None
        } else {
            Some(deviation_of(short_mean, long_mean) as i128)
        }
    }

    /// The exits of this cycle: the open positions that are to be closed at
    /// `current_price`, each once and with its reason, in no promised order.
    pub fn exit_signals(&self, current_price: u64) -> (r: Vec<(u128, ExitReason)>)
        requires
            self.wf(),
            self.state() == BotState::Running,
        ensures
            exits_cover(
                r@,
                self.positions(),
                current_price,
                mean_of(self.short_tracker().window()) as u64,
                self.strategy().risk_management,
            ),
    {
        let short_mean = self.short_ma.calculate();
        self.trading_strategy.check_exit_signals(current_price, short_mean, &self.strategy)
    }

    /// Records the outcome of the sell order for `position_id`. A confirmed
    /// sell closes the position and adds its proceeds at `current_price` to
    /// the balance. Any other outcome changes nothing and is handed back: the
    /// position stays open for the cycles to come.
    pub fn settle_exit(
        &mut self,
        position_id: u128,
        current_price: u64,
        sold: Result<(), ApiError>,
    ) -> (r: Result<u128, ApiError>)
        requires
            old(self).wf(),
            old(self).state() == BotState::Running,
            old(self).positions().contains_key(position_id) && sold is Ok ==> old(self).balance()
                + old(self).positions()[position_id].value_at(current_price) <= i128::MAX,
        ensures
            final(self).wf(),
            final(self).market_side_as(old(self)),
            !old(self).positions().contains_key(position_id) ==> {
                &&& r is Err
                &&& r->Err_0 is NotFound
                &&& final(self).positions() == old(self).positions()
                &&& final(self).balance() == old(self).balance()
            },
            old(self).positions().contains_key(position_id) ==> match sold {
                Ok(_) => {
                    &&& r == Ok::<u128, ApiError>(
                        old(self).positions()[position_id].value_at(current_price) as u128,
                    )
                    &&& final(self).positions() == old(self).positions().remove(position_id)
                    &&& final(self).balance() == old(self).balance() + old(
                        self,
                    ).positions()[position_id].value_at(current_price)
                },
                Err(error) => {
                    &&& r == Err::<u128, ApiError>(error)
                    &&& final(self).positions() == old(self).positions()
                    &&& final(self).balance() == old(self).balance()
                },
            },
    {
        let outcome = self.trading_strategy.confirm_exit(position_id, current_price, sold);
        match outcome {
            Ok(proceeds) => {
                self.account_balance = credit(self.account_balance, proceeds);
                Ok(proceeds)
            },
            Err(error) => Err(error),
        }
    }

    /// The entry of this cycle: the size of the position to open at
    /// `current_price`, or none. It is decided once, after the exits.
    pub fn entry_signal(&self, current_price: u64) -> (r: Option<u64>)
        requires
            self.wf(),
            self.state() == BotState::Running,
        ensures
            r == entry_order(
                self.positions().len(),
                mean_of(self.short_tracker().window()) as u64,
                mean_of(self.long_tracker().window()) as u64,
                self.balance(),
                current_price,
                self.strategy(),
            ),
    {
        let short_mean = self.short_ma.calculate();
        let long_mean = self.long_ma.calculate();
        self.trading_strategy.check_entry_signals(
            current_price,
            short_mean,
            long_mean,
            self.account_balance,
            &self.strategy,
        )
    }

    /// Records the outcome of the buy order of an entry. A confirmed position
    /// is opened and the capital it consumed, at the venue's price, leaves the
    /// balance. Any other outcome changes nothing and is handed back; so does
    /// an outcome that arrives while no more positions may be open.
    pub fn settle_entry(&mut self, placed: Result<Position, ApiError>) -> (r: Result<
        u128,
        ApiError,
    >)
        requires
            old(self).wf(),
            old(self).state() == BotState::Running,
            placed is Ok && old(self).positions().len() < old(
                self,
            ).strategy().risk_management.max_positions ==> old(self).balance()
                - placed->Ok_0.entry_value() >= i128::MIN,
        ensures
            final(self).wf(),
            final(self).market_side_as(old(self)),
            old(self).positions().len() >= old(self).strategy().risk_management.max_positions ==> {
                &&& r is Err
                &&& r->Err_0 is CapacityError
                &&& final(self).positions() == old(self).positions()
                &&& final(self).balance() == old(self).balance()
            },
            old(self).positions().len() < old(self).strategy().risk_management.max_positions
                ==> match placed {
                Ok(position) => {
                    &&& r == Ok::<u128, ApiError>(position.entry_value() as u128)
                    &&& final(self).positions() == old(self).positions().insert(
                        position.id,
                        position,
                    )
                    &&& final(self).balance() == old(self).balance() - position.entry_value()
                },
                Err(error) => {
                    &&& r == Err::<u128, ApiError>(error)
                    &&& final(self).positions() == old(self).positions()
                    &&& final(self).balance() == old(self).balance()
                },
            },
    {
        let outcome = self.trading_strategy.confirm_entry(placed);
        match outcome {
            Ok(consumed) => {
                self.account_balance = debit(self.account_balance, consumed);
                Ok(consumed)
            },
            Err(error) => Err(error),
        }
    }

    /// Ends a cycle: the candle it ran on joins the history, and the summary
    /// of the cycle is drawn up.
    pub fn finish_cycle(&mut self, latest: ProcessedCandle) -> (r: CycleSummary)
        requires
            old(self).wf(),
            old(self).state() == BotState::Running,
        ensures
            final(self).wf(),
            final(self).trading_side_as(old(self)),
            final(self).state() == old(self).state(),
            final(self).long_tracker() == old(self).long_tracker(),
            final(self).short_tracker() == old(self).short_tracker(),
            final(self).history() == history_push(
                old(self).history(),
                latest,
                old(self).history_limit(),
            ),
            r.balance == old(self).balance(),
            r.open_positions == old(self).positions().len(),
            r.deviation == old(self).spec_deviation(),
    {
        self.insert_candle(latest);
        let short_mean = self.short_ma.calculate();
        let long_mean = self.long_ma.calculate();
        CycleSummary {
            balance: self.account_balance,
            open_positions: self.trading_strategy.open_positions_count(),
            deviation: deviation(short_mean, long_mean),
        }
    }

    fn insert_candle(&mut self, candle: ProcessedCandle)
        requires
            old(self).wf(),
        ensures
            final(self).wf(),
            final(self).trading_side_as(old(self)),
            final(self).state() == old(self).state(),
            final(self).long_tracker() == old(self).long_tracker(),
            final(self).short_tracker() == old(self).short_tracker(),
            final(self).history() == history_push(
                old(self).history(),
                candle,
                old(self).history_limit(),
            ),
    {
        self.candles.push(candle);
        if self.candles.len() > self.strategy.timeframe.period_measurement.measure_bars
            * MA_PERIOD_DIFFERENCE {
            self.candles.remove(0);
        }
    }

    /// Where the scheduler stands.
    pub fn current_state(&self) -> (r: BotState)
        ensures
            r == self.state(),
    {
        self.state
    }

    pub fn account_balance(&self) -> (r: i128)
        ensures
            r == self.balance(),
    {
        self.account_balance
    }

    /// The number of open positions.
    pub fn open_positions_count(&self) -> (r: usize)
        ensures
            r == self.positions().len(),
    {
        self.trading_strategy.open_positions_count()
    }

    /// The open position `position_id`, if there is one.
    pub fn get_position(&self, position_id: u128) -> (r: Option<&Position>)
        ensures
            r is Some <==> self.positions().contains_key(position_id),
            r is Some ==> *r->Some_0 == self.positions()[position_id],
    {
        self.trading_strategy.get_position(position_id)
    }

    /// The candles kept, oldest first.
    pub fn candles(&self) -> (r: &Vec<ProcessedCandle>)
        ensures
            r@ == self.history(),
    {
        &self.candles
    }

    pub fn get_strategy(&self) -> (r: &Strategy)
        ensures
            *r == self.strategy(),
    {
        &self.strategy
    }

    /// The short and the long mean as they stand.
    pub fn means(&self) -> (r: (u64, u64))
        requires
            self.wf(),
        ensures
            r.0 == mean_of(self.short_tracker().window()),
            r.1 == mean_of(self.long_tracker().window()),
    {
        (self.short_ma.calculate(), self.long_ma.calculate())
    }
}

/// At every point the number of open positions is within the limit of the
/// configuration: it holds of every engine that is well-formed, and every
/// step keeps an engine well-formed.
pub proof fn lemma_open_positions_within_limit(bot: Bot)
    requires
        bot.wf(),
    ensures
        bot.positions().len() <= bot.strategy().risk_management.max_positions,
{
}

} // verus!
