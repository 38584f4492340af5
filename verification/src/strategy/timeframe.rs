//! When a strategy samples the market, and over how many samples it measures.

use crate::strategy::mean_calculation::MeanCalculationMethod;
use vstd::prelude::*;
use vstd::string::StringSliceAdditionalSpecFns;
use vstd::utf8::encode_utf8;

verus! {

/// The timing of a strategy.
#[derive(Debug)]
pub struct StrategyTimeframe {
    /// The span of one candle, in the venue's notation (`"1h"`).
    pub interval: String,
    /// The pause between two cycles, in seconds.
    pub tick: u64,
    pub period_measurement: PeriodMeasurement,
}

/// Over how many candles the long mean is taken, and by which method.
#[derive(Debug)]
pub struct PeriodMeasurement {
    pub measure_bars: usize,
    pub mean_calculation_method: MeanCalculationMethod,
}

/// The ASCII code of `0`.
pub const DIGIT_ZERO: u8 = 48;

/// The ASCII code of `9`.
pub const DIGIT_NINE: u8 = 57;

/// The seconds in the unit that the letter `unit` stands for: `s`, `m`, `h`,
/// `d` or `w`. A month has no fixed length and is not among them.
pub open spec fn unit_seconds(unit: u8) -> Option<nat> {
    if unit == 115 {
        Some(1)
    } else if unit == 109 {
        Some(60)
    } else if unit == 104 {
        Some(3_600)
    } else if unit == 100 {
        Some(86_400)
    } else if unit == 119 {
        Some(604_800)
    } else {
        None
    }
}

pub open spec fn is_digit(byte: u8) -> bool {
    DIGIT_ZERO <= byte <= DIGIT_NINE
}

pub open spec fn all_digits(text: Seq<u8>) -> bool {
    forall|i: int| 0 <= i < text.len() ==> is_digit(#[trigger] text[i])
}

/// The number that the decimal digits `digits` write.
pub open spec fn decimal_value(digits: Seq<u8>) -> nat
    decreases digits.len(),
{
    if digits.len() == 0 {
        0
    } else {
        decimal_value(digits.drop_last()) * 10 + (digits.last() - DIGIT_ZERO) as nat
    }
}

/// The seconds that an interval in the venue's notation spans: one or more
/// decimal digits, then the letter of a unit. Anything else is no interval.
pub open spec fn interval_seconds(text: Seq<u8>) -> Option<nat> {
    if text.len() < 2 || !all_digits(text.drop_last()) {
        None
    } else {
        match unit_seconds(text.last()) {
            Some(unit) => Some(decimal_value(text.drop_last()) * unit),
            None => None,
        }
    }
}

/// The seconds of an interval as far as they fit the result.
pub open spec fn interval_seconds_bounded(text: Seq<u8>) -> Option<u64> {
    match interval_seconds(text) {
        Some(seconds) => if seconds <= u64::MAX {
            Some(seconds as u64)
        } else {
            None
        },
        None => None,
    }
}

fn unit_in_seconds(unit: u8) -> (r: Option<u64>)
    ensures
        r is Some <==> unit_seconds(unit) is Some,
        r is Some ==> r->Some_0 == unit_seconds(unit)->Some_0,
{
    if unit == 115 {
        Some(1)
    } else if unit == 109 {
        Some(60)
    } else if unit == 104 {
        Some(3_600)
    } else if unit == 100 {
        Some(86_400)
    } else if unit == 119 {
        Some(604_800)
    } else {
        None
    }
}

/// Reads an interval in the venue's notation, given as bytes, into seconds.
pub fn parse_interval(text: &[u8]) -> (r: Option<u64>)
    ensures
        r == interval_seconds_bounded(text@),
{
    let length = text.len();
    if length < 2 {
        return None;
    }
    let ghost digits = text@.drop_last();
    let mut number: u64 = 0;
    let mut overflown = false;
    let mut i: usize = 0;
    while i < length - 1
        invariant
            length == text@.len(),
            length >= 2,
            digits == text@.drop_last(),
            0 <= i <= length - 1,
            all_digits(digits.take(i as int)),
            !overflown ==> number == decimal_value(digits.take(i as int)),
            overflown ==> decimal_value(digits.take(i as int)) > u64::MAX,
        decreases length - 1 - i,
    {
        let byte = text[i];
        if byte < DIGIT_ZERO || byte > DIGIT_NINE {
            proof {
                assert(digits[i as int] == byte);
            }
            return None;
        }
        let digit: u64 = (byte - DIGIT_ZERO) as u64;
        proof {
            assert(digits.take(i as int + 1).drop_last() =~= digits.take(i as int));
            assert(digits.take(i as int + 1).last() == byte);
        }
        if overflown || number > (u64::MAX - digit) / 10 {
            overflown = true;
        } else {
            number = number * 10 + digit;
        }
        i = i + 1;
    }
    proof {
        assert(digits.take(i as int) =~= digits);
    }
    match unit_in_seconds(text[length - 1]) {
        None => None,
        Some(unit) => {
            if overflown {
                proof {
                    assert(decimal_value(digits) * unit > u64::MAX) by (nonlinear_arith)
                        requires
                            decimal_value(digits) > u64::MAX,
                            unit >= 1,
                    ;
                }
                return None;
            }
            if number > u64::MAX / unit {
                proof {
                    assert(number * unit > u64::MAX) by (nonlinear_arith)
                        requires
                            number > u64::MAX / unit,
                            unit >= 1,
                    ;
                }
                return None;
            }
            proof {
                assert(number * unit <= u64::MAX) by (nonlinear_arith)
                    requires
                        number <= u64::MAX / unit,
                        unit >= 1,
                ;
            }
            Some(number * unit)
        },
    }
}

/// The seconds that the interval written as `text` spans, as far as it is an
/// interval and they fit the result.
pub open spec fn interval_of(text: Seq<char>) -> Option<u64> {
    interval_seconds_bounded(encode_utf8(text))
}

/// Reads an interval in the venue's notation into seconds: `"1h"` is 3600.
pub fn duration_from_kline_interval(interval: &str) -> (r: Option<u64>)
    ensures
        r == interval_of(interval@),
{
    parse_interval(interval.as_bytes())
}

} // verus!
