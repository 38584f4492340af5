//! The configuration of a strategy: what is traded, when, and on which
//! thresholds.

use crate::api::error::ApiError;
use crate::api::supported_api::Api;
use crate::strategy::mean_calculation::MaTracker;
use crate::strategy::timeframe::StrategyTimeframe;
use vstd::prelude::*;

verus! {

/// One in ratio units: a threshold of this value stands for 1, that is 100%.
pub const RATIO_SCALE: u64 = 1_000_000;

/// The configuration of a strategy. It is checked once, when it is built, and
/// read-only afterwards.
#[derive(Debug)]
pub struct Strategy {
    /// The instrument that is traded.
    pub symbol: String,
    /// The asset in which the balance is held. It differs from `symbol`.
    pub trading_symbol: String,
    pub pair: String,
    pub exchange: Exchange,
    pub timeframe: StrategyTimeframe,
    pub risk_management: RiskManagement,
    pub measurement_deviation: MeasurementDeviation,
}

#[derive(Debug)]
pub struct Exchange {
    pub api: Api,
}

/// The thresholds that bound risk. The ratios are in millionths.
#[derive(Debug, Clone, Copy, PartialEq, Eq, Structural)]
pub struct RiskManagement {
    /// The share of the balance that one entry uses.
    pub capital_per_trade: u32,
    /// The most positions that may be open at once.
    pub max_positions: usize,
    /// The rise of the price over the short mean at which a position is
    /// closed as unstable.
    pub max_drawdown: u32,
    /// The loss against the entry price at which a position is closed.
    pub stop_loss: u32,
    /// The gain against the entry price at which a position is closed.
    pub profit_level: u32,
}

/// The threshold for entry.
#[derive(Debug, Clone, Copy, PartialEq, Eq, Structural)]
pub struct MeasurementDeviation {
    /// How far the short mean must lie below the long mean for an entry, in
    /// millionths of a percent.
    pub enter_deviation: u32,
}

impl Strategy {
    /// What a configuration must meet: the balance is not held in the traded
    /// instrument itself, and the method of the means has a computation.
    pub open spec fn acceptable(&self) -> bool {
        &&& self.symbol@ != self.trading_symbol@
        &&& MaTracker::supported(self.timeframe.period_measurement.mean_calculation_method)
    }

    /// Checks a configuration that was loaded, and builds the strategy from
    /// it. One that is not acceptable is refused.
    pub fn new(
        symbol: String,
        trading_symbol: String,
        pair: String,
        exchange: Exchange,
        timeframe: StrategyTimeframe,
        risk_management: RiskManagement,
        measurement_deviation: MeasurementDeviation,
    ) -> (r: Result<Self, ApiError>)
        ensures
            match r {
                Ok(strategy) => {
                    &&& strategy.acceptable()
                    &&& strategy == (Strategy {
                        symbol,
                        trading_symbol,
                        pair,
                        exchange,
                        timeframe,
                        risk_management,
                        measurement_deviation,
                    })
                },
                Err(error) => {
                    &&& error is ValidationError
                    &&& !(Strategy {
                        symbol,
                        trading_symbol,
                        pair,
                        exchange,
                        timeframe,
                        risk_management,
                        measurement_deviation,
                    }).acceptable()
                },
            },
    {
        let strategy = Strategy {
            symbol,
            trading_symbol,
            pair,
            exchange,
            timeframe,
            risk_management,
            measurement_deviation,
        };
        match strategy.validate() {
            Ok(_) => Ok(strategy),
            Err(error) => Err(error),
        }
    }

    /// Whether the configuration is acceptable, and if not, why.
    pub fn validate(&self) -> (r: Result<(), ApiError>)
        ensures
            r is Ok <==> self.acceptable(),
            r is Err ==> r->Err_0 is ValidationError,
    {
        if self.symbol == self.trading_symbol {
            return Err(
                ApiError::ValidationError(
                    "Invalid strategy: symbol and trading_symbol cannot be the same".to_string(),
                ),
            );
        }
        if self.timeframe.period_measurement.mean_calculation_method
            != crate::strategy::mean_calculation::MeanCalculationMethod::SimpleMA {
            return Err(ApiError::ValidationError("unsupported calculation method".to_string()));
        }
        Ok(())
    }
}

} // verus!
