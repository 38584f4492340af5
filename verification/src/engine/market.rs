//! What the market hands the engine: candles, and the positions taken on them.

use time::UtcDateTime;
use vstd::prelude::*;

verus! {

/// `time::UtcDateTime`, a moment in time. The engine keeps one with each
/// position and reads nothing of it.
#[verifier::external_type_specification]
#[verifier::external_body]
pub struct ExUtcDateTime(time::UtcDateTime);

/// One open trade.
#[derive(Debug)]
pub struct Position {
    /// The identifier under which the position is kept.
    pub id: u128,
    pub symbol: String,
    /// The price at entry, in ticks.
    pub entry_price: u64,
    /// The size, in lots.
    pub quantity: u64,
    /// When the position was opened.
    pub timestamp: UtcDateTime,
}

/// One price and volume sample of a fixed span of time. Prices are in ticks,
/// the volume in lots.
#[derive(Debug, Clone, Copy, PartialEq, Eq, Structural)]
pub struct ProcessedCandle {
    pub timestamp: u64,
    pub open: u64,
    pub high: u64,
    pub low: u64,
    pub close: u64,
    pub volume: u64,
}

/// The value of `quantity` lots at `price` ticks each, in tick-lots.
pub open spec fn value_of(price: u64, quantity: u64) -> int {
    price as int * quantity as int
}

/// Whether `id` has the marks of a random identifier: the version field holds
/// 4 and the variant field the bits `10`.
pub open spec fn is_random_identifier(id: u128) -> bool {
    (id >> 76) & 0xf == 4 && (id >> 62) & 0x3 == 2
}

/// `uuid::Uuid::new_v4`, read as a number with `Uuid::as_u128`. The identifier
/// is drawn at random. All that is claimed of it is what that function sets in
/// every identifier it makes: the version and the variant.
#[verifier::external_body]
fn random_identifier() -> (id: u128)
    ensures
        is_random_identifier(id),
{
    uuid::Uuid::new_v4().as_u128()
}

impl Position {
    /// The value of the position at its entry price.
    pub open spec fn entry_value(&self) -> int {
        value_of(self.entry_price, self.quantity)
    }

    /// The value of the position at `price`.
    pub open spec fn value_at(&self, price: u64) -> int {
        value_of(price, self.quantity)
    }

    /// A position under a freshly drawn identifier.
    pub fn new(symbol: String, entry_price: u64, quantity: u64, timestamp: UtcDateTime) -> (r:
        Self)
        ensures
            is_random_identifier(r.id),
            r.symbol == symbol,
            r.entry_price == entry_price,
            r.quantity == quantity,
            r.timestamp == timestamp,
    {
        Self { id: random_identifier(), symbol, entry_price, quantity, timestamp }
    }
}

impl ProcessedCandle {
    /// The midpoint of open and close, rounded down.
    pub fn calculate_mean(&self) -> (r: u64)
        ensures
            r == (self.open + self.close) / 2,
    {
        ((self.open as u128 + self.close as u128) / 2) as u64
    }
}

/// The exact product of a price and a quantity.
pub fn value(price: u64, quantity: u64) -> (r: u128)
    ensures
        r == value_of(price, quantity),
{
    assert(price * quantity <= u64::MAX * u64::MAX) by (nonlinear_arith)
        requires
            price <= u64::MAX,
            quantity <= u64::MAX,
    ;
    price as u128 * quantity as u128
}

} // verus!
