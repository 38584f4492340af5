//! The engine proper: market data, positions, signals and the scheduler.

pub mod bot;
pub mod market;
pub mod math;
pub mod position_manager;
pub mod scheduler;
pub mod trading_strategy;
