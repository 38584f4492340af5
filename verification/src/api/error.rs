//! The errors of the engine and of the venue it talks to.

use vstd::prelude::*;

verus! {

/// Why an operation failed. Each variant carries a reason for the log.
#[derive(Debug)]
pub enum ApiError {
    /// An outside payload was malformed.
    ParseError(String),
    /// The transport failed.
    NetworkError(String),
    /// Market data was absent or insufficient.
    MarketError(String),
    /// The venue rejected an order.
    OrderError(String),
    /// The limit on open positions is reached.
    CapacityError(String),
    /// No open position has the identifier that was named.
    NotFound(String),
    /// The configuration violates a precondition.
    ValidationError(String),
}

} // verus!
