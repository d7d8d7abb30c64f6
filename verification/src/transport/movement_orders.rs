use vstd::prelude::*;

use crate::non_empty_circular_list::{advanced_position, NonEmptyCircularList};
use crate::StationId;

verus! {

/// Where an order sends a transport.
#[derive(Debug, PartialEq, Eq, Structural, Copy, Clone)]
pub enum MovementOrderLocation {
    StationId(StationId),
}

/// What a transport loads at a stop.
#[derive(Debug, PartialEq, Eq, Structural, Copy, Clone)]
pub enum LoadAction {
    NoLoad,
    LoadAvailable,
    LoadUntilFull,
}

/// What a transport unloads at a stop.
#[derive(Debug, PartialEq, Eq, Structural, Copy, Clone)]
pub enum UnloadAction {
    NoUnload,
    UnloadAvailable,
    UnloadUntilEmpty,
}

/// What a transport does where an order sends it.
#[derive(Debug, PartialEq, Eq, Structural, Copy, Clone)]
pub enum MovementOrderAction {
    PassingThrough,
    LoadAndUnload(LoadAction, UnloadAction),
}

/// One order: where to go and what to do there.
#[derive(Debug, PartialEq, Eq, Structural, Copy, Clone)]
pub struct MovementOrder {
    pub go_to: MovementOrderLocation,
    pub action: MovementOrderAction,
}

impl MovementOrder {
    /// Go to the station and load and unload what is available there.
    pub fn stop_at_station(station_id: StationId) -> (r: MovementOrder)
        ensures
            r == (MovementOrder {
                go_to: MovementOrderLocation::StationId(station_id),
                action: MovementOrderAction::LoadAndUnload(LoadAction::LoadAvailable, UnloadAction::UnloadAvailable),
            }),
    {
        MovementOrder {
            go_to: MovementOrderLocation::StationId(station_id),
            action: MovementOrderAction::LoadAndUnload(LoadAction::LoadAvailable, UnloadAction::UnloadAvailable),
        }
    }
}

/// The orders of a transport, followed round and round, and whether it was stopped.
#[derive(Debug, PartialEq, Clone)]
pub struct MovementOrders {
    force_stop: bool,
    orders: NonEmptyCircularList<MovementOrder>,
}

impl MovementOrders {
    pub closed spec fn stopped(&self) -> bool {
        self.force_stop
    }

    /// The orders, in the order they are followed.
    pub closed spec fn orders(&self) -> Seq<MovementOrder> {
        self.orders.items()
    }

    /// The position of the order being followed.
    pub closed spec fn current(&self) -> int {
        self.orders.position()
    }

    pub closed spec fn wf(&self) -> bool {
        self.orders.wf()
    }

    /// The orders that hold only `movement_order`.
    pub fn one(movement_order: MovementOrder) -> (r: MovementOrders)
        ensures
            r.wf(),
            !r.stopped(),
            r.orders() == seq![movement_order],
            r.current() == 0,
    {
        MovementOrders { force_stop: false, orders: NonEmptyCircularList::one(movement_order) }
    }

    pub fn is_stopped(&self) -> (r: bool)
        ensures
            r == self.stopped(),
    {
        self.force_stop
    }

    pub fn force_stop(&mut self)
        requires
            old(self).wf(),
        ensures
            final(self).wf(),
            final(self).stopped(),
            final(self).orders() == old(self).orders(),
            final(self).current() == old(self).current(),
    {
        self.force_stop = true;
    }

    /// Adds `movement_order` after the last order.
    pub fn push(&mut self, movement_order: MovementOrder)
        requires
            old(self).wf(),
        ensures
            final(self).wf(),
            final(self).stopped() == old(self).stopped(),
            final(self).orders() == old(self).orders().push(movement_order),
            final(self).current() == old(self).current(),
    {
        self.orders.push(movement_order);
    }

    /// The order being followed.
    pub fn current_order(&self) -> (r: MovementOrder)
        requires
            self.wf(),
        ensures
            r == self.orders()[self.current()],
    {
        self.orders.next()
    }

    /// Moves on to the next order, and after the last one back to the first.
    pub fn advance_to_next_order(&mut self)
        requires
            old(self).wf(),
        ensures
            final(self).wf(),
            final(self).stopped() == old(self).stopped(),
            final(self).orders() == old(self).orders(),
            final(self).current() == advanced_position(old(self).current(), 1, old(self).orders().len() as int),
    {
        self.orders.advance();
    }
}

} // verus!
