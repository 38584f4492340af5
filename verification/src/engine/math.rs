//! Arithmetic on series of prices.

use crate::strategy::mean_calculation::lemma_mean_bounds;
use crate::strategy::mean_calculation::lemma_sum_bounds;
use crate::strategy::mean_calculation::mean_of;
use crate::strategy::mean_calculation::seq_sum;
use vstd::prelude::*;

verus! {

/// The arithmetic of the engine.
pub struct TradingMath;

/// Arithmetic on series of prices.
pub trait Math {
    /// The arithmetic mean of `values`, rounded down. An empty series has no
    /// mean.
    fn calculate_mean(values: &[u64]) -> (mean: u64)
        requires
            values@.len() > 0,
        ensures
            mean == mean_of(values@),
    ;
}

impl Math for TradingMath {
    fn calculate_mean(values: &[u64]) -> (mean: u64) {
        let mut total: u128 = 0;
        let mut i: usize = 0;
        while i < values.len()
            invariant
                0 <= i <= values@.len(),
                total == seq_sum(values@.take(i as int)),
            decreases values@.len() - i,
        {
            proof {
                let next = values@.take(i as int + 1);
                assert(next.drop_last() =~= values@.take(i as int));
                lemma_sum_bounds(next);
                assert(next.len() * u64::MAX <= usize::MAX * u64::MAX) by (nonlinear_arith)
                    requires
                        next.len() <= usize::MAX,
                ;
            }
            total = total + values[i] as u128;
            i = i + 1;
        }
        proof {
            assert(values@.take(i as int) =~= values@);
            lemma_mean_bounds(values@);
        }
        (total / (values.len() as u128)) as u64
    }
}

} // verus!
