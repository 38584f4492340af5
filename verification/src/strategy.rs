//! The configuration of a strategy and the moving averages it is built on.

pub mod mean_calculation;
pub mod strategy;
pub mod timeframe;
