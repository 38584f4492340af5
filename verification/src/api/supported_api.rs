//! The venues a strategy can name.

use vstd::prelude::*;

verus! {

/// A venue the engine knows an adapter for.
#[derive(Debug, Clone, Copy, PartialEq, Eq, Structural)]
pub enum Api {
    Binance,
}

} // verus!
