//! The set of open positions and its capacity.
//!
//! The manager places no order itself. The caller asks whether there is room,
//! places the order with the venue, and hands the venue's answer in: a position
//! enters the set only with a confirmed buy, and leaves it only with a
//! confirmed sell.

use crate::api::error::ApiError;
use crate::engine::market::value;
use crate::engine::market::Position;
use std::collections::HashMap;
use vstd::prelude::*;
use vstd::std_specs::iter::IteratorSpec;

verus! {

/// The open positions, by identifier, and the most that may be open at once.
pub struct PositionManager {
    open_positions: HashMap<u128, Position>,
    max_positions: usize,
}

impl PositionManager {
    /// The open positions, by identifier.
    pub closed spec fn positions(&self) -> Map<u128, Position> {
        self.open_positions@
    }

    /// The most positions that may be open at once.
    pub closed spec fn capacity(&self) -> nat {
        self.max_positions as nat
    }

    /// No more positions are open than the capacity allows, and each is kept
    /// under its own identifier.
    pub open spec fn wf(&self) -> bool {
        &&& self.positions().dom().finite()
        &&& self.positions().len() <= self.capacity()
        &&& forall|id: u128| #[trigger]
            self.positions().contains_key(id) ==> self.positions()[id].id == id
    }

    /// A manager with no open position.
    pub fn new(max_positions: usize) -> (r: Self)
        ensures
            r.wf(),
            r.positions() == Map::<u128, Position>::empty(),
            r.capacity() == max_positions,
    {
        Self { open_positions: HashMap::new(), max_positions }
    }

    /// Whether one more position may be opened.
    pub fn has_capacity(&self) -> (r: bool)
        ensures
            r == (self.positions().len() < self.capacity()),
    {
        self.open_positions.len() < self.max_positions
    }

    /// Records the outcome of a buy order.
    ///
    /// At capacity nothing is recorded and the error says so, whatever the
    /// venue answered. Below capacity a confirmed position enters the set
    /// under its identifier and the capital it consumed is returned; a failed
    /// order is handed back as it came and nothing is recorded.
    pub fn open_position(&mut self, placed: Result<Position, ApiError>) -> (r: Result<
        u128,
        ApiError,
    >)
        requires
            old(self).wf(),
        ensures
            final(self).wf(),
            final(self).capacity() == old(self).capacity(),
            old(self).positions().len() >= old(self).capacity() ==> {
                &&& r is Err
                &&& r->Err_0 is CapacityError
                &&& final(self).positions() == old(self).positions()
            },
            old(self).positions().len() < old(self).capacity() ==> match placed {
                Ok(position) => {
                    &&& r == Ok::<u128, ApiError>(position.entry_value() as u128)
                    &&& final(self).positions() == old(self).positions().insert(
                        position.id,
                        position,
                    )
                },
                Err(error) => {
                    &&& r == Err::<u128, ApiError>(error)
                    &&& final(self).positions() == old(self).positions()
                },
            },
    {
        if self.open_positions.len() >= self.max_positions {
            return Err(
                ApiError::CapacityError("Maximum value of open positions reached".to_string()),
            );
        }
        match placed {
            Ok(position) => {
                let consumed = value(position.entry_price, position.quantity);
                let id = position.id;
                proof {
                    let before = self.open_positions@;
                    if before.contains_key(id) {
                        assert(before.insert(id, position).dom() =~= before.dom());
                    }
                }
                self.open_positions.insert(id, position);
                Ok(consumed)
            },
            Err(error) => Err(error),
        }
    }

    /// Records the outcome of a sell order for the position `position_id`.
    ///
    /// An identifier that is not open is an error, whatever the venue
    /// answered. For an open one, a confirmed sell removes the position and
    /// returns the proceeds at `current_price`; a failed order is handed back
    /// as it came and the position stays open, unchanged.
    pub fn close_position(
        &mut self,
        position_id: u128,
        current_price: u64,
        sold: Result<(), ApiError>,
    ) -> (r: Result<u128, ApiError>)
        requires
            old(self).wf(),
        ensures
            final(self).wf(),
            final(self).capacity() == old(self).capacity(),
            !old(self).positions().contains_key(position_id) ==> {
                &&& r is Err
                &&& r->Err_0 is NotFound
                &&& final(self).positions() == old(self).positions()
            },
            old(self).positions().contains_key(position_id) ==> match sold {
                Ok(_) => {
                    &&& r == Ok::<u128, ApiError>(
                        old(self).positions()[position_id].value_at(current_price) as u128,
                    )
                    &&& final(self).positions() == old(self).positions().remove(position_id)
                },
                Err(error) => {
                    &&& r == Err::<u128, ApiError>(error)
                    &&& final(self).positions() == old(self).positions()
                },
            },
    {
        let quantity = match self.open_positions.get(&position_id) {
            Some(position) => position.quantity,
            None => {
                return Err(ApiError::NotFound("Position not found".to_string()));
            },
        };
        match sold {
            Ok(_) => {
                let proceeds = value(current_price, quantity);
                self.open_positions.remove(&position_id);
                Ok(proceeds)
            },
            Err(error) => Err(error),
        }
    }

    /// The open position `position_id`, if there is one.
    pub fn get_position(&self, position_id: u128) -> (r: Option<&Position>)
        ensures
            r is Some <==> self.positions().contains_key(position_id),
            r is Some ==> *r->Some_0 == self.positions()[position_id],
    {
        self.open_positions.get(&position_id)
    }

    /// The identifiers of the open positions, each once, in no promised order.
    pub fn position_ids(&self) -> (r: Vec<u128>)
        ensures
            r@.no_duplicates(),
            r@.to_set() == self.positions().dom(),
    {
        let mut ids: Vec<u128> = Vec::new();
        for id in it: self.open_positions.keys()
            invariant
                ids@.len() == it.index(),
                forall|j: int| 0 <= j < ids@.len() ==> ids@[j] == *it.seq()[j],
        {
            ids.push(*id);
        }
        proof {
            let keys = self.open_positions.keys().remaining();
            assert(ids@ =~= keys.unref());
        }
        ids
    }

    /// The open positions, each once, in no promised order.
    pub fn get_positions(&self) -> (r: Vec<&Position>)
        requires
            self.wf(),
        ensures
            r@.len() == self.positions().len(),
            forall|j: int|
                0 <= j < r@.len() ==> self.positions().contains_key((#[trigger] r@[j]).id)
                    && *r@[j] == self.positions()[r@[j].id],
            forall|i: int, j: int| 0 <= i < j < r@.len() ==> r@[i].id != r@[j].id,
            forall|id: u128|
                self.positions().contains_key(id) ==> exists|j: int|
                    0 <= j < r@.len() && (#[trigger] r@[j]).id == id,
    {
        let ids = self.position_ids();
        proof {
            ids@.unique_seq_to_set();
        }
        let mut open: Vec<&Position> = Vec::new();
        let mut i: usize = 0;
        while i < ids.len()
            invariant
                0 <= i <= ids@.len(),
                self.wf(),
                ids@.no_duplicates(),
                ids@.to_set() == self.positions().dom(),
                open@.len() == i,
                forall|j: int|
                    0 <= j < i ==> (#[trigger] open@[j]).id == ids@[j] && *open@[j]
                        == self.positions()[ids@[j]],
            decreases ids@.len() - i,
        {
            let id = ids[i];
            assert(ids@.to_set().contains(ids@[i as int]));
            match self.open_positions.get(&id) {
                Some(position) => {
                    open.push(position);
                },
                None => {},
            }
            i = i + 1;
        }
        proof {
            assert forall|id: u128| self.positions().contains_key(id) implies exists|j: int|
                0 <= j < open@.len() && (#[trigger] open@[j]).id == id by {
                assert(ids@.to_set().contains(id));
                let j = choose|j: int| 0 <= j < ids@.len() && ids@[j] == id;
                assert(open@[j].id == id);
            }
        }
        open
    }

    /// Whether no position is open.
    pub fn is_empty(&self) -> (r: bool)
        ensures
            r == (self.positions().len() == 0),
    {
        self.open_positions.is_empty()
    }

    /// The number of open positions.
    pub fn len(&self) -> (r: usize)
        ensures
            r == self.positions().len(),
    {
        self.open_positions.len()
    }

    /// The most positions that may be open at once.
    pub fn max_positions(&self) -> (r: usize)
        ensures
            r == self.capacity(),
    {
        self.max_positions
    }
}

/// A position that is opened and at once closed at its entry price yields the
/// capital it consumed, so the two together leave the balance where it was;
/// and where its identifier was not open before, the set of open positions is
/// the one before.
pub proof fn lemma_open_then_close_is_neutral(before: Map<u128, Position>, position: Position)
    ensures
        before.insert(position.id, position)[position.id].value_at(position.entry_price)
            - position.entry_value() == 0,
        !before.contains_key(position.id) ==> before.insert(position.id, position).remove(
            position.id,
        ) == before,
{
    assert(before.insert(position.id, position).remove(position.id) =~= before.remove(
        position.id,
    ));
    if !before.contains_key(position.id) {
        assert(before.remove(position.id) =~= before);
    }
}

} // verus!
