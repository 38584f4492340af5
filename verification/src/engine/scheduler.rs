//! The control loop of the engine, as a machine that is stepped from outside.
//!
//! The scheduler never acts. It answers each event with the action that its
//! caller is to perform next, and waits for the event that reports how the
//! action went. The caller fetches, places orders and sleeps; the order of the
//! steps, what follows a failure, and every change of the engine's state are
//! decided here.
//!
//! A cycle runs on one candle: the means take its close in, every open
//! position that is to be closed is sold, one after the other, then an entry
//! is decided once, and at last the candle joins the history. A sell that
//! fails leaves its position open and the cycle goes on. A fetch or a buy that
//! fails ends the cycle, which is answered by a pause; the loop itself never
//! ends. Only seeding can fail for good.

use crate::api::client::KLineParams;
use crate::api::error::ApiError;
use crate::engine::bot::can_credit;
use crate::engine::bot::can_debit;
use crate::engine::bot::history_push;
use crate::engine::bot::Bot;
use crate::engine::bot::BotState;
use crate::engine::bot::CycleSummary;
use crate::engine::bot::closes;
use crate::engine::bot::recent_third;
use crate::engine::bot::TRADING_CYCLE_RECOVERY_PERIOD;
use crate::engine::market::value;
use crate::engine::market::Position;
use crate::engine::market::ProcessedCandle;
use crate::engine::trading_strategy::entry_order;
use crate::engine::trading_strategy::exit_signal;
use crate::engine::trading_strategy::exits_cover;
use crate::engine::trading_strategy::ExitReason;
use crate::strategy::mean_calculation::mean_of;
use crate::strategy::mean_calculation::window_after;
use crate::strategy::mean_calculation::window_push;
use crate::strategy::strategy::Strategy;
use crate::strategy::timeframe::interval_of;
use vstd::pervasive::unreached;
use vstd::prelude::*;

verus! {

/// What happened outside the engine.
#[derive(Debug)]
pub enum Event {
    /// The loop starts.
    Start,
    /// The seed window was fetched, oldest candle first, or could not be.
    Seed(Result<Vec<ProcessedCandle>, ApiError>),
    /// The starting balance was fetched, or could not be.
    Balance(Result<i128, ApiError>),
    /// The time of the next cycle has come.
    Tick,
    /// The latest candle was fetched, or could not be.
    Latest(Result<ProcessedCandle, ApiError>),
    /// The sell order was confirmed, or failed.
    Sold(Result<(), ApiError>),
    /// The buy order was confirmed with the position it opened, or failed.
    Bought(Result<Position, ApiError>),
}

/// What the caller is to do next.
#[derive(Debug)]
pub enum Action {
    /// Fetch the seed window and report it with [`Event::Seed`].
    FetchSeed(KLineParams),
    /// Fetch the balance of the named asset and report it with
    /// [`Event::Balance`].
    FetchBalance(String),
    /// Fetch the latest candle and report it with [`Event::Latest`].
    FetchLatest { symbol: String, interval: u64 },
    /// Sell the position and report the outcome with [`Event::Sold`].
    Sell { position_id: u128, symbol: String, quantity: u64 },
    /// Buy and report the outcome with [`Event::Bought`].
    Buy { symbol: String, quantity: u64, price: u64 },
    /// The cycle is over, with its summary or with the error that ended it.
    /// Pause for `backoff` seconds, wait for the next tick and report it with
    /// [`Event::Tick`].
    Wait { backoff: u64, cycle: Result<CycleSummary, ApiError> },
    /// Seeding failed for good: stop.
    Stop(ApiError),
    /// The event answers nothing that was asked for. Nothing has changed.
    Refused,
}

/// What the scheduler waits for.
#[derive(Debug)]
pub enum Pending {
    /// No action is under way.
    Nothing,
    /// The seed window.
    Seed,
    /// The starting balance; the seed window is at hand.
    Balance { seed: Vec<ProcessedCandle> },
    /// The latest candle.
    Latest,
    /// The outcome of the sell order for the exit at index `at` of `exits`.
    Sell { latest: ProcessedCandle, exits: Vec<(u128, ExitReason)>, at: usize },
    /// The outcome of the buy order of the entry.
    Buy { latest: ProcessedCandle },
}

/// The engine and what its loop waits for.
pub struct TradingScheduler {
    bot: Bot,
    pending: Pending,
}

/// The summary of a cycle that ends with the engine as it is.
pub open spec fn summary_of(engine: Bot) -> CycleSummary {
    CycleSummary {
        balance: engine.balance() as i128,
        open_positions: engine.positions().len() as usize,
        deviation: engine.spec_deviation(),
    }
}

/// Strategy, means, history, positions and balance of `after` are those of
/// `before`: at most the state differs.
pub open spec fn kept_but_state(after: Bot, before: Bot) -> bool {
    &&& after.strategy() == before.strategy()
    &&& after.long_tracker() == before.long_tracker()
    &&& after.short_tracker() == before.short_tracker()
    &&& after.history() == before.history()
    &&& after.positions() == before.positions()
    &&& after.balance() == before.balance()
}

/// `after` is `before` in all that is observed of an engine.
pub open spec fn kept(after: Bot, before: Bot) -> bool {
    kept_but_state(after, before) && after.state() == before.state()
}

/// The exits from index `at` on are still open.
pub open spec fn exits_open(
    exits: Seq<(u128, ExitReason)>,
    at: int,
    positions: Map<u128, Position>,
) -> bool {
    &&& forall|j: int| at <= j < exits.len() ==> positions.contains_key((#[trigger] exits[j]).0)
    &&& forall|i: int, j: int| 0 <= i < j < exits.len() ==> exits[i].0 != exits[j].0
}

/// The order to sell the open position `position_id`.
pub open spec fn sell_order(positions: Map<u128, Position>, position_id: u128) -> Action {
    Action::Sell {
        position_id,
        symbol: positions[position_id].symbol,
        quantity: positions[position_id].quantity,
    }
}

/// The request for the candle a cycle runs on.
pub open spec fn latest_request(strategy: Strategy) -> Action {
    Action::FetchLatest { symbol: strategy.symbol, interval: strategy.timeframe.tick }
}

impl TradingScheduler {
    /// The engine.
    pub closed spec fn engine(&self) -> Bot {
        self.bot
    }

    /// What the scheduler waits for.
    pub closed spec fn pending(&self) -> Pending {
        self.pending
    }

    /// The engine is well-formed and stands where that which is waited for
    /// puts it; while exits are sold, those still to come are open.
    pub open spec fn wf(&self) -> bool {
        &&& self.engine().wf()
        &&& match self.pending() {
            Pending::Nothing => true,
            Pending::Seed => self.engine().state() == BotState::Initializing,
            Pending::Balance { seed } => self.engine().state() == BotState::Initializing
                && seed@.len() > 0,
            Pending::Latest => self.engine().state() == BotState::Running,
            Pending::Sell { latest, exits, at } => {
                &&& self.engine().state() == BotState::Running
                &&& at < exits@.len()
                &&& exits_open(exits@, at as int, self.engine().positions())
            },
            Pending::Buy { latest } => self.engine().state() == BotState::Running,
        }
    }

    /// After the exits of the cycle on `latest`: the entry is decided. Either
    /// a buy order is asked for, or the cycle ends here with its summary and
    /// `latest` joins the history that was `history`.
    pub open spec fn decides_entry(
        &self,
        action: Action,
        latest: ProcessedCandle,
        history: Seq<ProcessedCandle>,
    ) -> bool {
        match entry_order(
            self.engine().positions().len(),
            mean_of(self.engine().short_tracker().window()) as u64,
            mean_of(self.engine().long_tracker().window()) as u64,
            self.engine().balance(),
            latest.close,
            self.engine().strategy(),
        ) {
            Some(quantity) => {
                &&& self.pending() == (Pending::Buy { latest })
                &&& self.engine().history() == history
                &&& action == (Action::Buy {
                    symbol: self.engine().strategy().symbol,
                    quantity,
                    price: latest.close,
                })
            },
            None => self.ends_cycle(action, latest, history),
        }
    }

    /// The cycle on `latest` ends with its summary, and `latest` joins the
    /// history that was `history`.
    pub open spec fn ends_cycle(
        &self,
        action: Action,
        latest: ProcessedCandle,
        history: Seq<ProcessedCandle>,
    ) -> bool {
        &&& self.pending() is Nothing
        &&& self.engine().history() == history_push(history, latest, self.engine().history_limit())
        &&& action == (Action::Wait { backoff: 0, cycle: Ok(summary_of(self.engine())) })
    }

    /// The exit at index `at` is sold next.
    pub open spec fn sells(
        &self,
        action: Action,
        latest: ProcessedCandle,
        exits: Vec<(u128, ExitReason)>,
        at: int,
        history: Seq<ProcessedCandle>,
    ) -> bool {
        &&& self.pending() == (Pending::Sell { latest, exits, at: at as usize })
        &&& self.engine().history() == history
        &&& action == sell_order(self.engine().positions(), exits@[at].0)
    }

    /// What [`Event::Start`] leads to, from `before`.
    pub open spec fn after_start(&self, before: TradingScheduler, action: Action) -> bool {
        &&& kept_but_state(self.engine(), before.engine())
        &&& match interval_of(before.engine().strategy().timeframe.interval@) {
            Some(seconds) => {
                &&& self.engine().state() == BotState::Initializing
                &&& self.pending() is Seed
                &&& action is FetchSeed
                &&& action->FetchSeed_0.spec_candles_count() == before.engine().history_limit()
                &&& action->FetchSeed_0.spec_symbol() == before.engine().strategy().symbol
                &&& action->FetchSeed_0.spec_interval() == seconds
                &&& action->FetchSeed_0.spec_start_time() is None
                &&& action->FetchSeed_0.spec_end_time() is None
            },
            None => {
                &&& self.engine().state() == BotState::Failed
                &&& self.pending() is Nothing
                &&& action is Stop
                &&& action->Stop_0 is ParseError
            },
        }
    }

    /// What the seed window leads to, from `before`.
    pub open spec fn after_seed(
        &self,
        before: TradingScheduler,
        seed: Result<Vec<ProcessedCandle>, ApiError>,
        action: Action,
    ) -> bool {
        &&& kept_but_state(self.engine(), before.engine())
        &&& match seed {
            Ok(candles) => if candles@.len() > 0 {
                &&& self.engine().state() == BotState::Initializing
                &&& self.pending() == (Pending::Balance { seed: candles })
                &&& action == Action::FetchBalance(before.engine().strategy().trading_symbol)
            } else {
                &&& self.engine().state() == BotState::Failed
                &&& self.pending() is Nothing
                &&& action is Stop
                &&& action->Stop_0 is MarketError
            },
            Err(error) => {
                &&& self.engine().state() == BotState::Failed
                &&& self.pending() is Nothing
                &&& action == Action::Stop(error)
            },
        }
    }

    /// What the starting balance leads to, from `before`, where the seed
    /// window `seed` is at hand.
    pub open spec fn after_balance(
        &self,
        before: TradingScheduler,
        seed: Vec<ProcessedCandle>,
        funds: Result<i128, ApiError>,
        action: Action,
    ) -> bool {
        match funds {
            Ok(amount) => {
                &&& self.engine().state() == BotState::Running
                &&& self.engine().strategy() == before.engine().strategy()
                &&& self.engine().positions() == before.engine().positions()
                &&& self.engine().history() == seed@
                &&& self.engine().balance() == amount
                &&& self.engine().long_tracker().window() == window_after(
                    before.engine().long_tracker().window(),
                    closes(seed@),
                    before.engine().long_period(),
                )
                &&& self.engine().short_tracker().window() == window_after(
                    before.engine().short_tracker().window(),
                    closes(recent_third(seed@)),
                    before.engine().long_period() / 3,
                )
                &&& self.pending() is Latest
                &&& action == latest_request(before.engine().strategy())
            },
            Err(error) => {
                &&& kept_but_state(self.engine(), before.engine())
                &&& self.engine().state() == BotState::Failed
                &&& self.pending() is Nothing
                &&& action == Action::Stop(error)
            },
        }
    }

    /// What the latest candle leads to, from `before`.
    pub open spec fn after_latest(
        &self,
        before: TradingScheduler,
        fetched: Result<ProcessedCandle, ApiError>,
        action: Action,
    ) -> bool {
        match fetched {
            Ok(latest) => {
                &&& self.engine().strategy() == before.engine().strategy()
                &&& self.engine().state() == before.engine().state()
                &&& self.engine().positions() == before.engine().positions()
                &&& self.engine().balance() == before.engine().balance()
                &&& self.engine().long_tracker().window() == window_push(
                    before.engine().long_tracker().window(),
                    latest.close,
                    before.engine().long_period(),
                )
                &&& self.engine().short_tracker().window() == window_push(
                    before.engine().short_tracker().window(),
                    latest.close,
                    before.engine().long_period() / 3,
                )
                &&& match self.pending() {
                    Pending::Sell { latest: on, exits, at } => {
                        &&& on == latest
                        &&& at == 0
                        &&& exits_cover(
                            exits@,
                            self.engine().positions(),
                            latest.close,
                            mean_of(self.engine().short_tracker().window()) as u64,
                            self.engine().strategy().risk_management,
                        )
                        &&& self.sells(action, latest, exits, 0, before.engine().history())
                    },
                    _ => {
                        &&& forall|id: u128|
                            self.engine().positions().contains_key(id) ==> !exit_signal(
                                #[trigger] self.engine().positions()[id],
                                latest.close,
                                mean_of(self.engine().short_tracker().window()) as u64,
                                self.engine().strategy().risk_management,
                            )
                        &&& self.decides_entry(action, latest, before.engine().history())
                    },
                }
            },
            Err(error) => {
                &&& kept(self.engine(), before.engine())
                &&& self.pending() is Nothing
                &&& action == (Action::Wait {
                    backoff: TRADING_CYCLE_RECOVERY_PERIOD,
                    cycle: Err(error),
                })
            },
        }
    }

    /// What the outcome of the sell order for the exit at index `at` leads
    /// to, from `before`.
    pub open spec fn after_sold(
        &self,
        before: TradingScheduler,
        latest: ProcessedCandle,
        exits: Vec<(u128, ExitReason)>,
        at: usize,
        sold: Result<(), ApiError>,
        action: Action,
    ) -> bool {
        let position_id = exits@[at as int].0;
        &&& self.engine().strategy() == before.engine().strategy()
        &&& self.engine().state() == before.engine().state()
        &&& self.engine().long_tracker() == before.engine().long_tracker()
        &&& self.engine().short_tracker() == before.engine().short_tracker()
        &&& match sold {
            Ok(_) => {
                &&& self.engine().positions() == before.engine().positions().remove(position_id)
                &&& self.engine().balance() == before.engine().balance()
                    + before.engine().positions()[position_id].value_at(latest.close)
            },
            Err(_) => {
                &&& self.engine().positions() == before.engine().positions()
                &&& self.engine().balance() == before.engine().balance()
            },
        }
        &&& if at + 1 < exits@.len() {
            self.sells(action, latest, exits, at + 1, before.engine().history())
        } else {
            self.decides_entry(action, latest, before.engine().history())
        }
    }

    /// What the outcome of the buy order leads to, from `before`.
    pub open spec fn after_bought(
        &self,
        before: TradingScheduler,
        latest: ProcessedCandle,
        placed: Result<Position, ApiError>,
        action: Action,
    ) -> bool {
        let room = before.engine().positions().len()
            < before.engine().strategy().risk_management.max_positions;
        &&& self.engine().strategy() == before.engine().strategy()
        &&& self.engine().state() == before.engine().state()
        &&& self.engine().long_tracker() == before.engine().long_tracker()
        &&& self.engine().short_tracker() == before.engine().short_tracker()
        &&& self.pending() is Nothing
        &&& if room && placed is Ok {
            let position = placed->Ok_0;
            &&& self.engine().positions() == before.engine().positions().insert(
                position.id,
                position,
            )
            &&& self.engine().balance() == before.engine().balance() - position.entry_value()
            &&& self.ends_cycle(action, latest, before.engine().history())
        } else {
            &&& self.engine().positions() == before.engine().positions()
            &&& self.engine().balance() == before.engine().balance()
            &&& self.engine().history() == before.engine().history()
            &&& action is Wait
            &&& action->Wait_backoff == TRADING_CYCLE_RECOVERY_PERIOD
            &&& action->Wait_cycle is Err
            &&& if room {
                action->Wait_cycle->Err_0 == placed->Err_0
            } else {
                action->Wait_cycle->Err_0 is CapacityError
            }
        }
    }

    /// Whether `event` answers what `self` waits for.
    pub open spec fn expects(&self, event: Event) -> bool {
        match (self.pending(), event) {
            (Pending::Nothing, Event::Start) => self.engine().state() == BotState::Uninitialized,
            (Pending::Nothing, Event::Tick) => self.engine().state() == BotState::Running,
            (Pending::Seed, Event::Seed(_)) => true,
            (Pending::Balance { .. }, Event::Balance(_)) => true,
            (Pending::Latest, Event::Latest(_)) => true,
            (Pending::Sell { .. }, Event::Sold(_)) => true,
            (Pending::Buy { .. }, Event::Bought(_)) => true,
            _ => false,
        }
    }

    /// What `event` leads to, from `before`: the state `self` and `action`.
    pub open spec fn follows(&self, before: TradingScheduler, event: Event, action: Action) -> bool {
        if !before.expects(event) {
            *self == before && action is Refused
        } else {
            match (before.pending(), event) {
                (Pending::Nothing, Event::Start) => self.after_start(before, action),
                (Pending::Nothing, Event::Tick) => {
                    &&& kept(self.engine(), before.engine())
                    &&& self.pending() is Latest
                    &&& action == latest_request(before.engine().strategy())
                },
                (Pending::Seed, Event::Seed(seed)) => self.after_seed(before, seed, action),
                (Pending::Balance { seed }, Event::Balance(funds)) => self.after_balance(
                    before,
                    seed,
                    funds,
                    action,
                ),
                (Pending::Latest, Event::Latest(fetched)) => self.after_latest(
                    before,
                    fetched,
                    action,
                ),
                (Pending::Sell { latest, exits, at }, Event::Sold(sold)) => self.after_sold(
                    before,
                    latest,
                    exits,
                    at,
                    sold,
                    action,
                ),
                (Pending::Buy { latest }, Event::Bought(placed)) => self.after_bought(
                    before,
                    latest,
                    placed,
                    action,
                ),
                _ => false,
            }
        }
    }

    /// Whether the balance can take what `event` brings or costs. It always
    /// can unless the value of a confirmed order leaves the range of the
    /// balance.
    pub open spec fn affordable(&self, event: Event) -> bool {
        match (self.pending(), event) {
            (Pending::Sell { latest, exits, at }, Event::Sold(Ok(_))) => self.engine().balance()
                + self.engine().positions()[exits@[at as int].0].value_at(latest.close)
                <= i128::MAX,
            (Pending::Buy { latest }, Event::Bought(Ok(position))) => self.engine().balance()
                - position.entry_value() >= i128::MIN,
            _ => true,
        }
    }

    /// A scheduler for `strategy` that waits for its start. A strategy that
    /// cannot drive an engine is refused.
    pub fn new(strategy: Strategy) -> (r: Result<Self, ApiError>)
        ensures
            match r {
                Ok(scheduler) => {
                    &&& Bot::drivable(strategy)
                    &&& scheduler.wf()
                    &&& scheduler.pending() is Nothing
                    &&& scheduler.engine().strategy() == strategy
                    &&& scheduler.engine().state() == BotState::Uninitialized
                    &&& scheduler.engine().balance() == 0
                    &&& scheduler.engine().history() == Seq::<ProcessedCandle>::empty()
                    &&& scheduler.engine().long_tracker().window() == Seq::<u64>::empty()
                    &&& scheduler.engine().short_tracker().window() == Seq::<u64>::empty()
                    &&& scheduler.engine().positions() == Map::<u128, Position>::empty()
                },
                Err(error) => error is ValidationError && !Bot::drivable(strategy),
            },
    {
        match Bot::new(strategy) {
            Ok(bot) => Ok(Self { bot, pending: Pending::Nothing }),
            Err(error) => Err(error),
        }
    }

    /// Takes `event` in and answers with the action that is to follow.
    pub fn step(self, event: Event) -> (r: (Self, Action))
        requires
            self.wf(),
            self.affordable(event),
        ensures
            r.0.wf(),
            r.0.follows(self, event, r.1),
    {
        let TradingScheduler { bot, pending } = self;
        match (pending, event) {
            (Pending::Nothing, Event::Start) => {
                if bot.current_state() == BotState::Uninitialized {
                    Self::start(bot)
                } else {
                    (Self { bot, pending: Pending::Nothing }, Action::Refused)
                }
            },
            (Pending::Nothing, Event::Tick) => {
                if bot.current_state() == BotState::Running {
                    let action = Self::fetch_latest(&bot);
                    (Self { bot, pending: Pending::Latest }, action)
                } else {
                    (Self { bot, pending: Pending::Nothing }, Action::Refused)
                }
            },
            (Pending::Seed, Event::Seed(seed)) => Self::seeded(bot, seed),
            (Pending::Balance { seed }, Event::Balance(funds)) => Self::funded(bot, seed, funds),
            (Pending::Latest, Event::Latest(fetched)) => Self::observed(bot, fetched),
            (Pending::Sell { latest, exits, at }, Event::Sold(sold)) => {
                let mut bot = bot;
                let ghost history = bot.history();
                let count = exits.len();
                let _ = bot.settle_exit(exits[at].0, latest.close, sold);
                let next = if at < count {
                    at + 1
                } else {
                    unreached()
                };
                Self::resume_exits(bot, latest, exits, next, Ghost(history))
            },
            (Pending::Buy { latest }, Event::Bought(placed)) => Self::bought(bot, latest, placed),
            (pending, _) => (Self { bot, pending }, Action::Refused),
        }
    }

    /// Whether the balance can take what `event` brings or costs: whether
    /// `event` may be handed to [`TradingScheduler::step`].
    pub fn can_take(&self, event: &Event) -> (r: bool)
        requires
            self.wf(),
        ensures
            r == self.affordable(*event),
    {
        match (&self.pending, event) {
            (Pending::Sell { latest, exits, at }, Event::Sold(Ok(_))) => {
                match self.bot.get_position(exits[*at].0) {
                    Some(position) => can_credit(
                        self.bot.account_balance(),
                        value(latest.close, position.quantity),
                    ),
                    None => unreached(),
                }
            },
            (Pending::Buy { .. }, Event::Bought(Ok(position))) => can_debit(
                self.bot.account_balance(),
                value(position.entry_price, position.quantity),
            ),
            _ => true,
        }
    }

    /// The engine, to read from.
    pub fn get_engine(&self) -> (r: &Bot)
        ensures
            *r == self.engine(),
    {
        &self.bot
    }

    /// Whether the scheduler waits for nothing: the loop is between two
    /// cycles, not started yet, or stopped.
    pub fn is_idle(&self) -> (r: bool)
        ensures
            r == (self.pending() is Nothing),
    {
        match &self.pending {
            Pending::Nothing => true,
            _ => false,
        }
    }

    fn fetch_latest(bot: &Bot) -> (r: Action)
        ensures
            r == latest_request(bot.strategy()),
    {
        Action::FetchLatest {
            symbol: bot.get_strategy().symbol.clone(),
            interval: bot.get_strategy().timeframe.tick,
        }
    }

    fn start(bot: Bot) -> (r: (Self, Action))
        requires
            bot.wf(),
            bot.state() == BotState::Uninitialized,
        ensures
            r.0.wf(),
            r.0.after_start(TradingScheduler { bot, pending: Pending::Nothing }, r.1),
    {
        let mut bot = bot;
        match bot.begin_initialize() {
            Ok(request) => (Self { bot, pending: Pending::Seed }, Action::FetchSeed(request)),
            Err(error) => (Self { bot, pending: Pending::Nothing }, Action::Stop(error)),
        }
    }

    fn seeded(bot: Bot, seed: Result<Vec<ProcessedCandle>, ApiError>) -> (r: (Self, Action))
        requires
            bot.wf(),
            bot.state() == BotState::Initializing,
        ensures
            r.0.wf(),
            r.0.after_seed(TradingScheduler { bot, pending: Pending::Seed }, seed, r.1),
    {
        match seed {
            Ok(candles) => {
                if candles.len() > 0 {
                    let action = Action::FetchBalance(bot.get_strategy().trading_symbol.clone());
                    (Self { bot, pending: Pending::Balance { seed: candles } }, action)
                } else {
                    let mut bot = bot;
                    match bot.initialize(Ok(candles), Ok(0)) {
                        Ok(_) => unreached(),
                        Err(error) => (Self { bot, pending: Pending::Nothing }, Action::Stop(error)),
                    }
                }
            },
            Err(error) => {
                let mut bot = bot;
                match bot.initialize(Err(error), Ok(0)) {
                    Ok(_) => unreached(),
                    Err(error) => (Self { bot, pending: Pending::Nothing }, Action::Stop(error)),
                }
            },
        }
    }

    fn funded(bot: Bot, seed: Vec<ProcessedCandle>, funds: Result<i128, ApiError>) -> (r: (
        Self,
        Action,
    ))
        requires
            bot.wf(),
            bot.state() == BotState::Initializing,
            seed@.len() > 0,
        ensures
            r.0.wf(),
            r.0.after_balance(
                TradingScheduler { bot, pending: Pending::Balance { seed } },
                seed,
                funds,
                r.1,
            ),
    {
        let mut bot = bot;
        match bot.initialize(Ok(seed), funds) {
            Ok(_) => {
                let action = Self::fetch_latest(&bot);
                (Self { bot, pending: Pending::Latest }, action)
            },
            Err(error) => (Self { bot, pending: Pending::Nothing }, Action::Stop(error)),
        }
    }

    fn observed(bot: Bot, fetched: Result<ProcessedCandle, ApiError>) -> (r: (Self, Action))
        requires
            bot.wf(),
            bot.state() == BotState::Running,
        ensures
            r.0.wf(),
            r.0.after_latest(TradingScheduler { bot, pending: Pending::Latest }, fetched, r.1),
    {
        match fetched {
            Ok(latest) => {
                let mut bot = bot;
                let ghost history = bot.history();
                let reading = bot.observe(&latest);
                let exits = bot.exit_signals(reading.price);
                Self::resume_exits(bot, latest, exits, 0, Ghost(history))
            },
            Err(error) => (
                Self { bot, pending: Pending::Nothing },
                Action::Wait { backoff: TRADING_CYCLE_RECOVERY_PERIOD, cycle: Err(error) },
            ),
        }
    }

    /// Goes on with the exits from index `at`: the next one is sold, or, when
    /// none is left, the entry is decided.
    fn resume_exits(
        bot: Bot,
        latest: ProcessedCandle,
        exits: Vec<(u128, ExitReason)>,
        at: usize,
        Ghost(history): Ghost<Seq<ProcessedCandle>>,
    ) -> (r: (Self, Action))
        requires
            bot.wf(),
            bot.state() == BotState::Running,
            bot.history() == history,
            at <= exits@.len(),
            exits_open(exits@, at as int, bot.positions()),
        ensures
            r.0.wf(),
            r.0.engine().strategy() == bot.strategy(),
            r.0.engine().state() == bot.state(),
            r.0.engine().long_tracker() == bot.long_tracker(),
            r.0.engine().short_tracker() == bot.short_tracker(),
            r.0.engine().positions() == bot.positions(),
            r.0.engine().balance() == bot.balance(),
            if at < exits@.len() {
                r.0.sells(r.1, latest, exits, at as int, history)
            } else {
                r.0.decides_entry(r.1, latest, history)
            },
    {
        if at < exits.len() {
            let position_id = exits[at].0;
            let action = match bot.get_position(position_id) {
                Some(position) => Action::Sell {
                    position_id,
                    symbol: position.symbol.clone(),
                    quantity: position.quantity,
                },
                None => unreached(),
            };
            (Self { bot, pending: Pending::Sell { latest, exits, at } }, action)
        } else {
            match bot.entry_signal(latest.close) {
                Some(quantity) => {
                    let action = Action::Buy {
                        symbol: bot.get_strategy().symbol.clone(),
                        quantity,
                        price: latest.close,
                    };
                    (Self { bot, pending: Pending::Buy { latest } }, action)
                },
                None => Self::finish(bot, latest),
            }
        }
    }

    fn bought(bot: Bot, latest: ProcessedCandle, placed: Result<Position, ApiError>) -> (r: (
        Self,
        Action,
    ))
        requires
            bot.wf(),
            bot.state() == BotState::Running,
            placed is Ok ==> bot.balance() - placed->Ok_0.entry_value() >= i128::MIN,
        ensures
            r.0.wf(),
            r.0.after_bought(
                TradingScheduler { bot, pending: Pending::Buy { latest } },
                latest,
                placed,
                r.1,
            ),
    {
        let mut bot = bot;
        match bot.settle_entry(placed) {
            Ok(_) => Self::finish(bot, latest),
            Err(error) => (
                Self { bot, pending: Pending::Nothing },
                Action::Wait { backoff: TRADING_CYCLE_RECOVERY_PERIOD, cycle: Err(error) },
            ),
        }
    }

    fn finish(bot: Bot, latest: ProcessedCandle) -> (r: (Self, Action))
        requires
            bot.wf(),
            bot.state() == BotState::Running,
        ensures
            r.0.wf(),
            r.0.engine().strategy() == bot.strategy(),
            r.0.engine().state() == bot.state(),
            r.0.engine().long_tracker() == bot.long_tracker(),
            r.0.engine().short_tracker() == bot.short_tracker(),
            r.0.engine().positions() == bot.positions(),
            r.0.engine().balance() == bot.balance(),
            r.0.ends_cycle(r.1, latest, bot.history()),
    {
        let mut bot = bot;
        let summary = bot.finish_cycle(latest);
        (Self { bot, pending: Pending::Nothing }, Action::Wait { backoff: 0, cycle: Ok(summary) })
    }
}

/// Whatever events arrive, the number of open positions stays within the
/// limit of the configuration: it holds of every well-formed scheduler, and
/// every step leaves the scheduler well-formed.
pub proof fn lemma_scheduler_within_limit(scheduler: TradingScheduler)
    requires
        scheduler.wf(),
    ensures
        scheduler.engine().positions().len()
            <= scheduler.engine().strategy().risk_management.max_positions,
{
}

} // verus!
