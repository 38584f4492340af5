//! The entry and exit rules, and the positions they act on.
//!
//! A rule compares a relative change with a threshold. The comparison is exact:
//! both sides are multiplied out, and nothing is divided or rounded. A change
//! relative to zero is undefined and meets no threshold.

use crate::api::error::ApiError;
use crate::engine::market::Position;
use crate::engine::position_manager::PositionManager;
use crate::strategy::strategy::RiskManagement;
use crate::strategy::strategy::Strategy;
use crate::strategy::strategy::RATIO_SCALE;
use vstd::arithmetic::div_mod::lemma_hoist_over_denominator;
use vstd::prelude::*;

verus! {

/// One in units of a millionth of a percent: a threshold of this value stands
/// for 100%.
pub const PERCENT_SCALE: u64 = 100_000_000;

/// Why a position is closed.
#[derive(Debug, Clone, Copy, PartialEq, Eq, Structural)]
pub enum ExitReason {
    /// The price fell below the entry price by the stop-loss threshold.
    StopLoss,
    /// The price rose above the entry price by the profit level.
    ProfitTarget,
    /// The price rose above the short mean by the drawdown limit.
    Unstable,
}

/// `current` lies below `base` by at least `threshold / scale` of `base`:
/// `(current - base) / base <= -threshold / scale`.
pub open spec fn fell_by(base: u64, current: u64, threshold: u32, scale: u64) -> bool {
    base > 0 && (current - base) * scale <= -(threshold * base)
}

/// `current` lies above `base` by at least `threshold / scale` of `base`:
/// `(current - base) / base >= threshold / scale`.
pub open spec fn rose_by(base: u64, current: u64, threshold: u32, scale: u64) -> bool {
    base > 0 && (current - base) * scale >= threshold * base
}

/// The entry rule on the means: the deviation of the short mean from the long
/// mean, in percent, is at most minus `enter_deviation`.
pub open spec fn entry_signal(short_mean: u64, long_mean: u64, enter_deviation: u32) -> bool {
    fell_by(long_mean, short_mean, enter_deviation, PERCENT_SCALE)
}

/// The deviation of the short mean from the long mean in millionths of a
/// percent, rounded towards zero; 0 where the long mean is 0.
pub open spec fn deviation_of(short_mean: u64, long_mean: u64) -> int {
    if long_mean == 0 {
        0
    } else if short_mean >= long_mean {
        ((short_mean - long_mean) * PERCENT_SCALE) / (long_mean as int)
    } else {
        -(((long_mean - short_mean) * PERCENT_SCALE) / (long_mean as int))
    }
}

/// The size of an entry, in lots: the share `capital_per_trade` of the
/// balance, at `price` a lot, rounded down. Without a positive balance and a
/// positive price the size is 0.
pub open spec fn order_quantity(balance: int, capital_per_trade: u32, price: u64) -> int {
    if balance <= 0 || price == 0 {
        0
    } else {
        (balance * capital_per_trade) / (RATIO_SCALE * price)
    }
}

/// What the entry rule decides: the size of the position to open, if one is
/// to be opened. There must be room for it, the means must give the signal,
/// and the size must be at least one lot and fit a quantity.
pub open spec fn entry_order(
    open_count: nat,
    short_mean: u64,
    long_mean: u64,
    balance: int,
    price: u64,
    strategy: Strategy,
) -> Option<u64> {
    let quantity = order_quantity(balance, strategy.risk_management.capital_per_trade, price);
    if open_count < strategy.risk_management.max_positions && entry_signal(
        short_mean,
        long_mean,
        strategy.measurement_deviation.enter_deviation,
    ) && 1 <= quantity <= u64::MAX {
        Some(quantity as u64)
    } else {
        None
    }
}

/// Why `position` is to be closed at `current_price`, if it is. The three
/// rules are independent; where several hold, the first in this order gives
/// the reason.
pub open spec fn exit_reason_of(
    position: Position,
    current_price: u64,
    short_mean: u64,
    risk: RiskManagement,
) -> Option<ExitReason> {
    if fell_by(position.entry_price, current_price, risk.stop_loss, RATIO_SCALE) {
        Some(ExitReason::StopLoss)
    } else if rose_by(position.entry_price, current_price, risk.profit_level, RATIO_SCALE) {
        Some(ExitReason::ProfitTarget)
    } else if rose_by(short_mean, current_price, risk.max_drawdown, RATIO_SCALE) {
        Some(ExitReason::Unstable)
    } else {
        None
    }
}

/// Whether `position` is to be closed: any one of the three rules holds.
pub open spec fn exit_signal(
    position: Position,
    current_price: u64,
    short_mean: u64,
    risk: RiskManagement,
) -> bool {
    ||| fell_by(position.entry_price, current_price, risk.stop_loss, RATIO_SCALE)
    ||| rose_by(position.entry_price, current_price, risk.profit_level, RATIO_SCALE)
    ||| rose_by(short_mean, current_price, risk.max_drawdown, RATIO_SCALE)
}

/// `exits` names the positions of `positions` that are to be closed, each
/// once and with its reason, and no other.
pub open spec fn exits_cover(
    exits: Seq<(u128, ExitReason)>,
    positions: Map<u128, Position>,
    current_price: u64,
    short_mean: u64,
    risk: RiskManagement,
) -> bool {
    &&& forall|j: int|
        0 <= j < exits.len() ==> positions.contains_key((#[trigger] exits[j]).0) && exit_reason_of(
            positions[exits[j].0],
            current_price,
            short_mean,
            risk,
        ) == Some(exits[j].1)
    &&& forall|i: int, j: int| 0 <= i < j < exits.len() ==> exits[i].0 != exits[j].0
    &&& forall|id: u128|
        positions.contains_key(id) && exit_signal(positions[id], current_price, short_mean, risk)
            ==> exists|j: int| 0 <= j < exits.len() && (#[trigger] exits[j]).0 == id
}

/// A position has a reason to be closed exactly when one of the rules holds:
/// the order in which they are tried decides the reason, not the outcome.
pub proof fn lemma_exit_reason_iff_signal(
    position: Position,
    current_price: u64,
    short_mean: u64,
    risk: RiskManagement,
)
    ensures
        exit_reason_of(position, current_price, short_mean, risk) is Some <==> exit_signal(
            position,
            current_price,
            short_mean,
            risk,
        ),
{
}

/// For a threshold above zero the entry rule is the comparison of the
/// deviation with the threshold: that the deviation is rounded does not change
/// the decision.
pub proof fn lemma_entry_signal_by_deviation(short_mean: u64, long_mean: u64, enter_deviation: u32)
    requires
        enter_deviation > 0,
    ensures
        entry_signal(short_mean, long_mean, enter_deviation) <==> (long_mean > 0 && deviation_of(
            short_mean,
            long_mean,
        ) <= -(enter_deviation as int)),
{
    if long_mean > 0 {
        let base = long_mean as int;
        let threshold = enter_deviation as int;
        if short_mean >= long_mean {
            let above = (short_mean - long_mean) * PERCENT_SCALE;
            assert(above >= 0 && threshold * base > 0 && above / base >= 0) by (nonlinear_arith)
                requires
                    above == (short_mean - long_mean) * PERCENT_SCALE,
                    short_mean >= long_mean,
                    threshold > 0,
                    base > 0,
            ;
        } else {
            let below = (long_mean - short_mean) * PERCENT_SCALE;
            assert((short_mean - long_mean) * PERCENT_SCALE == -below) by (nonlinear_arith)
                requires
                    below == (long_mean - short_mean) * PERCENT_SCALE,
            ;
            assert(below >= threshold * base <==> below / base >= threshold) by (nonlinear_arith)
                requires
                    base > 0,
                    threshold > 0,
                    below >= 0,
            ;
        }
    }
}

fn has_fallen_by(base: u64, current: u64, threshold: u32, scale: u64) -> (r: bool)
    requires
        0 < scale <= PERCENT_SCALE,
    ensures
        r == fell_by(base, current, threshold, scale),
{
    if base == 0 {
        return false;
    }
    if current > base {
        assert((current - base) * scale > 0 && threshold * base >= 0) by (nonlinear_arith)
            requires
                current > base,
                scale > 0,
                threshold >= 0,
                base > 0,
        ;
        return false;
    }
    let fall: u64 = base - current;
    assert(fall * scale <= u64::MAX * PERCENT_SCALE && (current - base) * scale == -(fall * scale))
        by (nonlinear_arith)
        requires
            fall == base - current,
            0 <= fall <= u64::MAX,
            0 < scale <= PERCENT_SCALE,
    ;
    assert(0 <= threshold * base <= u32::MAX * u64::MAX) by (nonlinear_arith)
        requires
            0 <= threshold <= u32::MAX,
            0 <= base <= u64::MAX,
    ;
    fall as u128 * scale as u128 >= threshold as u128 * base as u128
}

fn has_risen_by(base: u64, current: u64, threshold: u32, scale: u64) -> (r: bool)
    requires
        0 < scale <= PERCENT_SCALE,
    ensures
        r == rose_by(base, current, threshold, scale),
{
    if base == 0 {
        return false;
    }
    if current < base {
        assert((current - base) * scale < 0 && threshold * base >= 0) by (nonlinear_arith)
            requires
                current < base,
                scale > 0,
                threshold >= 0,
                base > 0,
        ;
        return false;
    }
    let rise: u64 = current - base;
    assert(0 <= rise * scale <= u64::MAX * PERCENT_SCALE) by (nonlinear_arith)
        requires
            0 <= rise <= u64::MAX,
            0 < scale <= PERCENT_SCALE,
    ;
    assert(0 <= threshold * base <= u32::MAX * u64::MAX) by (nonlinear_arith)
        requires
            0 <= threshold <= u32::MAX,
            0 <= base <= u64::MAX,
    ;
    rise as u128 * scale as u128 >= threshold as u128 * base as u128
}

/// The deviation of the short mean from the long mean, for the record of a
/// cycle. There is none while the long mean is 0.
pub fn deviation(short_mean: u64, long_mean: u64) -> (r: Option<i128>)
    ensures
        long_mean == 0 <==> r is None,
        r is Some ==> r->Some_0 == deviation_of(short_mean, long_mean),
{
    if long_mean == 0 {
        return None;
    }
    let apart: u64 = if short_mean >= long_mean {
        short_mean - long_mean
    } else {
        long_mean - short_mean
    };
    assert(0 <= apart * PERCENT_SCALE <= u64::MAX * PERCENT_SCALE) by (nonlinear_arith)
        requires
            0 <= apart <= u64::MAX,
    ;
    let scaled: u128 = apart as u128 * PERCENT_SCALE as u128;
    let size: u128 = scaled / long_mean as u128;
    assert(0 <= size <= scaled) by (nonlinear_arith)
        requires
            size == scaled / (long_mean as u128),
            long_mean > 0,
            scaled >= 0,
    ;
    if short_mean >= long_mean {
        Some(size as i128)
    } else {
        Some(-(size as i128))
    }
}

/// The size of an entry, where it is at least one lot and fits a quantity.
pub fn entry_quantity(balance: i128, capital_per_trade: u32, price: u64) -> (r: Option<u64>)
    ensures
        r == if 1 <= order_quantity(balance as int, capital_per_trade, price) <= u64::MAX {
            Some(order_quantity(balance as int, capital_per_trade, price) as u64)
        } else {
            None
        },
{
    if balance <= 0 || price == 0 {
        return None;
    }
    if capital_per_trade == 0 {
        assert(balance * capital_per_trade == 0) by (nonlinear_arith)
            requires
                capital_per_trade == 0,
        ;
        return None;
    }
    let funds: u128 = balance as u128;
    assert(0 < RATIO_SCALE * price <= RATIO_SCALE * u64::MAX) by (nonlinear_arith)
        requires
            0 < price <= u64::MAX,
    ;
    let lot_cost: u128 = RATIO_SCALE as u128 * price as u128;
    let whole: u128 = funds / lot_cost;
    let rest: u128 = funds % lot_cost;
    proof {
        let share = capital_per_trade as int;
        let divisor = lot_cost as int;
        assert(funds == divisor * (funds as int / divisor) + funds as int % divisor) by {
            vstd::arithmetic::div_mod::lemma_fundamental_div_mod(funds as int, divisor);
        }
        assert(funds * share == rest * share + (whole * share) * divisor) by (nonlinear_arith)
            requires
                funds == divisor * whole + rest,
        ;
        lemma_hoist_over_denominator(rest * share, whole * share, divisor as nat);
        assert(order_quantity(balance as int, capital_per_trade, price) == (rest * share)
            / divisor + whole * share);
        assert(0 <= rest * share <= lot_cost * u32::MAX) by (nonlinear_arith)
            requires
                0 <= rest < lot_cost,
                0 < share <= u32::MAX,
        ;
        assert(0 <= (rest * share) / divisor <= rest * share) by (nonlinear_arith)
            requires
                0 <= rest * share,
                divisor > 0,
        ;
        assert(whole * share >= whole) by (nonlinear_arith)
            requires
                whole >= 0,
                share >= 1,
        ;
        assert(whole <= u64::MAX ==> whole * share <= u64::MAX * u32::MAX) by (nonlinear_arith)
            requires
                whole >= 0,
                0 < share <= u32::MAX,
        ;
    }
    if whole > u64::MAX as u128 {
        return None;
    }
    let quantity: u128 = whole * capital_per_trade as u128 + (rest * capital_per_trade as u128)
        / lot_cost;
    if quantity == 0 || quantity > u64::MAX as u128 {
        return None;
    }
    Some(quantity as u64)
}

/// Why `position` is to be closed at `current_price`, if it is.
pub fn exit_reason(
    position: &Position,
    current_price: u64,
    short_mean: u64,
    risk: &RiskManagement,
) -> (r: Option<ExitReason>)
    ensures
        r == exit_reason_of(*position, current_price, short_mean, *risk),
{
    if has_fallen_by(position.entry_price, current_price, risk.stop_loss, RATIO_SCALE) {
        Some(ExitReason::StopLoss)
    } else if has_risen_by(position.entry_price, current_price, risk.profit_level, RATIO_SCALE) {
        Some(ExitReason::ProfitTarget)
    } else if has_risen_by(short_mean, current_price, risk.max_drawdown, RATIO_SCALE) {
        Some(ExitReason::Unstable)
    } else {
        None
    }
}

/// The rules of the strategy, and the positions they opened.
pub struct TradingStrategy {
    position_manager: PositionManager,
}

impl TradingStrategy {
    /// The open positions and their capacity.
    pub closed spec fn manager(&self) -> PositionManager {
        self.position_manager
    }

    /// The open positions, by identifier.
    pub open spec fn positions(&self) -> Map<u128, Position> {
        self.manager().positions()
    }

    pub open spec fn wf(&self) -> bool {
        self.manager().wf()
    }

    /// A strategy with no open position and room for `max_positions`.
    pub fn new(max_positions: usize) -> (r: Self)
        ensures
            r.wf(),
            r.positions() == Map::<u128, Position>::empty(),
            r.manager().capacity() == max_positions,
    {
        Self { position_manager: PositionManager::new(max_positions) }
    }

    /// Decides on an entry, once per cycle: the size of the position to open
    /// at `current_price`, or none.
    pub fn check_entry_signals(
        &self,
        current_price: u64,
        short_mean: u64,
        long_mean: u64,
        account_balance: i128,
        strategy: &Strategy,
    ) -> (r: Option<u64>)
        ensures
            r == entry_order(
                self.positions().len(),
                short_mean,
                long_mean,
                account_balance as int,
                current_price,
                *strategy,
            ),
    {
        if self.position_manager.len() >= strategy.risk_management.max_positions {
            return None;
        }
        if has_fallen_by(
            long_mean,
            short_mean,
            strategy.measurement_deviation.enter_deviation,
            PERCENT_SCALE,
        ) {
            entry_quantity(
                account_balance,
                strategy.risk_management.capital_per_trade,
                current_price,
            )
        } else {
            None
        }
    }

    /// Decides on the exits: the identifiers of the open positions that are to
    /// be closed at `current_price`, each once and with its reason, in no
    /// promised order. Each position is judged on its own.
    pub fn check_exit_signals(&self, current_price: u64, short_mean: u64, strategy: &Strategy) -> (r:
        Vec<(u128, ExitReason)>)
        requires
            self.wf(),
        ensures
            exits_cover(
                r@,
                self.positions(),
                current_price,
                short_mean,
                strategy.risk_management,
            ),
    {
        let open = self.position_manager.get_positions();
        let mut to_close: Vec<(u128, ExitReason)> = Vec::new();
        let ghost mut origin: Seq<int> = Seq::empty();
        let mut i: usize = 0;
        while i < open.len()
            invariant
                0 <= i <= open@.len(),
                origin.len() == to_close@.len(),
                forall|k: int|
                    0 <= k < origin.len() ==> 0 <= #[trigger] origin[k] < i && to_close@[k].0
                        == open@[origin[k]].id && exit_reason_of(
                        *open@[origin[k]],
                        current_price,
                        short_mean,
                        strategy.risk_management,
                    ) == Some(to_close@[k].1),
                forall|k: int, l: int| 0 <= k < l < origin.len() ==> origin[k] < origin[l],
                forall|j: int|
                    0 <= j < i && exit_reason_of(
                        *open@[j],
                        current_price,
                        short_mean,
                        strategy.risk_management,
                    ) is Some ==> exists|k: int|
                        0 <= k < origin.len() && #[trigger] origin[k] == j,
            decreases open@.len() - i,
        {
            let position = open[i];
            match exit_reason(position, current_price, short_mean, &strategy.risk_management) {
                Some(reason) => {
                    to_close.push((position.id, reason));
                    proof {
                        let ghost earlier = origin;
                        origin = origin.push(i as int);
                        assert forall|j: int|
                            0 <= j < i + 1 && exit_reason_of(
                                *open@[j],
                                current_price,
                                short_mean,
                                strategy.risk_management,
                            ) is Some implies exists|k: int|
                            0 <= k < origin.len() && #[trigger] origin[k] == j by {
                            if j < i {
                                let k = choose|k: int|
                                    0 <= k < earlier.len() && #[trigger] earlier[k] == j;
                                assert(origin[k] == j);
                            } else {
                                assert(origin[origin.len() - 1] == j);
                            }
                        }
                    }
                },
                None => {},
            }
            i = i + 1;
        }
        proof {
            assert forall|j: int| 0 <= j < to_close@.len() implies self.positions().contains_key(
                (#[trigger] to_close@[j]).0,
            ) && exit_reason_of(
                self.positions()[to_close@[j].0],
                current_price,
                short_mean,
                strategy.risk_management,
            ) == Some(to_close@[j].1) by {
                let at = origin[j];
                assert(open@[at].id == to_close@[j].0);
            }
            assert forall|k: int, l: int| 0 <= k < l < to_close@.len() implies to_close@[k].0
                != to_close@[l].0 by {
                assert(origin[k] < origin[l]);
                assert(open@[origin[k]].id != open@[origin[l]].id);
            }
            assert forall|id: u128|
                self.positions().contains_key(id) && exit_signal(
                    self.positions()[id],
                    current_price,
                    short_mean,
                    strategy.risk_management,
                ) implies exists|j: int| 0 <= j < to_close@.len() && (#[trigger] to_close@[j]).0
                == id by {
                let at = choose|at: int| 0 <= at < open@.len() && (#[trigger] open@[at]).id == id;
                assert(*open@[at] == self.positions()[id]);
                let k = choose|k: int| 0 <= k < origin.len() && #[trigger] origin[k] == at;
                assert(to_close@[k].0 == id);
            }
        }
        to_close
    }

    /// Records the outcome of the buy order that an entry asked for: see
    /// [`PositionManager::open_position`].
    pub fn confirm_entry(&mut self, placed: Result<Position, ApiError>) -> (r: Result<
        u128,
        ApiError,
    >)
        requires
            old(self).wf(),
        ensures
            final(self).wf(),
            final(self).manager().capacity() == old(self).manager().capacity(),
            old(self).positions().len() >= old(self).manager().capacity() ==> {
                &&& r is Err
                &&& r->Err_0 is CapacityError
                &&& final(self).positions() == old(self).positions()
            },
            old(self).positions().len() < old(self).manager().capacity() ==> match placed {
                Ok(position) => {
                    &&& r == Ok::<u128, ApiError>(position.entry_value() as u128)
                    &&& final(self).positions() == old(self).positions().insert(
                        position.id,
                        position,
                    )
                },
                Err(error) => {
                    &&& r == Err::<u128, ApiError>(error)
                    &&& final(self).positions() == old(self).positions()
                },
            },
    {
        self.position_manager.open_position(placed)
    }

    /// Records the outcome of the sell order that an exit asked for: see
    /// [`PositionManager::close_position`].
    pub fn confirm_exit(
        &mut self,
        position_id: u128,
        current_price: u64,
        sold: Result<(), ApiError>,
    ) -> (r: Result<u128, ApiError>)
        requires
            old(self).wf(),
        ensures
            final(self).wf(),
            final(self).manager().capacity() == old(self).manager().capacity(),
            !old(self).positions().contains_key(position_id) ==> {
                &&& r is Err
                &&& r->Err_0 is NotFound
                &&& final(self).positions() == old(self).positions()
            },
            old(self).positions().contains_key(position_id) ==> match sold {
                Ok(_) => {
                    &&& r == Ok::<u128, ApiError>(
                        old(self).positions()[position_id].value_at(current_price) as u128,
                    )
                    &&& final(self).positions() == old(self).positions().remove(position_id)
                },
                Err(error) => {
                    &&& r == Err::<u128, ApiError>(error)
                    &&& final(self).positions() == old(self).positions()
                },
            },
    {
        self.position_manager.close_position(position_id, current_price, sold)
    }

    /// The open position `position_id`, if there is one.
    pub fn get_position(&self, position_id: u128) -> (r: Option<&Position>)
        ensures
            r is Some <==> self.positions().contains_key(position_id),
            r is Some ==> *r->Some_0 == self.positions()[position_id],
    {
        self.position_manager.get_position(position_id)
    }

    /// The number of open positions.
    pub fn open_positions_count(&self) -> (r: usize)
        ensures
            r == self.positions().len(),
    {
        self.position_manager.len()
    }
}

} // verus!
