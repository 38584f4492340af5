//! A mean-reversion trading engine for one instrument on a spot exchange.
//!
//! The library holds the decisions and the bookkeeping: two rolling means over
//! windows of different length, the entry and exit rules drawn from them, the
//! set of open positions with its capacity, the balance that follows confirmed
//! orders, and the scheduler's state. Talking to a venue is left to the caller,
//! who hands each outcome back to the engine.
//!
//! All amounts are integers. A price counts ticks, a quantity counts lots, and
//! a value (a cost, proceeds, the balance) counts tick-lots, so that a value is
//! the exact product of a price and a quantity. Thresholds are ratios in
//! millionths.

pub mod api;
pub mod engine;
pub mod strategy;
