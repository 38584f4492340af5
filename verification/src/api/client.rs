//! The request for candles that the engine hands to a venue.

use crate::api::error::ApiError;
use crate::strategy::strategy::Strategy;
use crate::strategy::timeframe::duration_from_kline_interval;
use crate::strategy::timeframe::interval_of;
use vstd::prelude::*;

verus! {

/// Which candles to fetch: how many, of which instrument, of which span, and
/// optionally between which times.
#[derive(Debug)]
pub struct KLineParams {
    candles_count: usize,
    symbol: String,
    interval: u64,
    start_time: Option<u64>,
    end_time: Option<u64>,
}

impl KLineParams {
    /// The number of candles asked for.
    pub closed spec fn spec_candles_count(&self) -> usize {
        self.candles_count
    }

    /// The instrument.
    pub closed spec fn spec_symbol(&self) -> String {
        self.symbol
    }

    /// The span of one candle, in seconds.
    pub closed spec fn spec_interval(&self) -> u64 {
        self.interval
    }

    /// The time from which candles are asked for, if it is bounded.
    pub closed spec fn spec_start_time(&self) -> Option<u64> {
        self.start_time
    }

    /// The time up to which candles are asked for, if it is bounded.
    pub closed spec fn spec_end_time(&self) -> Option<u64> {
        self.end_time
    }

    /// The request for the candles that the long mean of `strategy` is taken
    /// over. A strategy whose interval cannot be read gives none.
    pub fn new(strategy: &Strategy) -> (r: Result<Self, ApiError>)
        ensures
            match interval_of(strategy.timeframe.interval@) {
                Some(seconds) => {
                    &&& r is Ok
                    &&& r->Ok_0.spec_candles_count()
                        == strategy.timeframe.period_measurement.measure_bars
                    &&& r->Ok_0.spec_symbol() == strategy.symbol
                    &&& r->Ok_0.spec_interval() == seconds
                    &&& r->Ok_0.spec_start_time() is None
                    &&& r->Ok_0.spec_end_time() is None
                },
                None => r is Err && r->Err_0 is ParseError,
            },
    {
        match duration_from_kline_interval(strategy.timeframe.interval.as_str()) {
            Some(seconds) => Ok(
                Self::build(
                    strategy.timeframe.period_measurement.measure_bars,
                    strategy.symbol.clone(),
                    seconds,
                ),
            ),
            None => Err(ApiError::ParseError("Invalid interval provided".to_string())),
        }
    }

    /// A request for `candles_count` candles of `symbol`, each spanning
    /// `interval` seconds, unbounded in time.
    pub fn build(candles_count: usize, symbol: String, interval: u64) -> (r: Self)
        ensures
            r.spec_candles_count() == candles_count,
            r.spec_symbol() == symbol,
            r.spec_interval() == interval,
            r.spec_start_time() is None,
            r.spec_end_time() is None,
    {
        Self { candles_count, interval, symbol, end_time: None, start_time: None }
    }

    /// The same request, up to `end_time`.
    pub fn end_time(self, end_time: u64) -> (r: Self)
        ensures
            r.spec_end_time() == Some(end_time),
            r.spec_candles_count() == self.spec_candles_count(),
            r.spec_symbol() == self.spec_symbol(),
            r.spec_interval() == self.spec_interval(),
            r.spec_start_time() == self.spec_start_time(),
    {
        let mut request = self;
        request.end_time = Some(end_time);
        request
    }

    /// The same request, from `start_time` on.
    pub fn start_time(self, start_time: u64) -> (r: Self)
        ensures
            r.spec_start_time() == Some(start_time),
            r.spec_candles_count() == self.spec_candles_count(),
            r.spec_symbol() == self.spec_symbol(),
            r.spec_interval() == self.spec_interval(),
            r.spec_end_time() == self.spec_end_time(),
    {
        let mut request = self;
        request.start_time = Some(start_time);
        request
    }

    /// The number of candles asked for.
    pub fn candles_count(&self) -> (r: usize)
        ensures
            r == self.spec_candles_count(),
    {
        self.candles_count
    }

    /// The instrument.
    pub fn symbol(&self) -> (r: &String)
        ensures
            *r == self.spec_symbol(),
    {
        &self.symbol
    }

    /// The span of one candle, in seconds.
    pub fn interval(&self) -> (r: u64)
        ensures
            r == self.spec_interval(),
    {
        self.interval
    }

    /// The bounds in time, start first.
    pub fn time_bounds(&self) -> (r: (Option<u64>, Option<u64>))
        ensures
            r == (self.spec_start_time(), self.spec_end_time()),
    {
        (self.start_time, self.end_time)
    }
}

} // verus!
