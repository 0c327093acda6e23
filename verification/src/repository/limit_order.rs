use crate::model::asset::Asset;
use crate::model::order::LimitOrder;
use crate::model::order_id::OrderId;
use crate::model::order_side::OrderSide;
use crate::model::price::Price;
use crate::model::quantity::Quantity;
use crate::repository::queue::{enqueued, head, holds, lookup, replaced, without, Queued};
use vstd::prelude::*;

verus! {

impl<ID: OrderId, A: Asset, P: Price, Q: Quantity> Queued for LimitOrder<ID, A, P, Q> {
    type Id = ID;

    type Key = P;

    open spec fn queue_id(self) -> ID {
        self.id
    }

    open spec fn queue_key(self) -> P {
        self.price
    }

    fn id_of(&self) -> (r: ID) {
        self.id
    }

    fn key_of(&self) -> (r: P) {
        self.price
    }
}

/// Whether the book of `side` serves its lowest price first. The asks do; the bids
/// serve their highest price first.
pub open spec fn lowest_first(side: OrderSide) -> bool {
    side == OrderSide::Ask
}

/// The book of one side: the limit orders that rest, seen through a transaction of
/// the caller. Nothing that it writes is kept unless the caller commits.
pub trait LimitOrderRepository: Send + Sized {
    type Err;

    type Asset: Asset;

    type OrderId: OrderId;

    type Price: Price;

    type Quantity: Quantity;

    type Transaction;

    /// The side whose orders rest here.
    spec fn side(&self) -> OrderSide;

    /// The orders that rest here as `tx` sees them, in the order in which they are to
    /// be matched: best price first and, at one price, the one that came first.
    spec fn resting(&self, tx: &Self::Transaction) -> Seq<
        LimitOrder<Self::OrderId, Self::Asset, Self::Price, Self::Quantity>,
    >;

    /// Whatever `before` holds beside the orders of this book, `after` holds it too.
    spec fn same_elsewhere(&self, before: &Self::Transaction, after: &Self::Transaction) -> bool;

    /// Whether every operation succeeds. A book on a disk or behind a network says no.
    spec fn reliable(&self) -> bool;

    /// Lets `order` join the book, behind the orders of its price.
    fn create(
        &self,
        tx: &mut Self::Transaction,
        order: &LimitOrder<Self::OrderId, Self::Asset, Self::Price, Self::Quantity>,
    ) -> (r: Result<(), Self::Err>)
        requires
            !holds(self.resting(old(tx)), order.id),
        ensures
            self.reliable() ==> r is Ok,
            r is Ok ==> self.same_elsewhere(old(tx), final(tx)),
            r is Ok ==> self.resting(final(tx)) == enqueued(
                lowest_first(self.side()),
                self.resting(old(tx)),
                *order,
            ),
    ;

    /// Puts `order` in the place of the resting order with its id. At the same price it
    /// keeps that order's place; at another price it goes behind the orders of its new
    /// price.
    fn update(
        &self,
        tx: &mut Self::Transaction,
        order: &LimitOrder<Self::OrderId, Self::Asset, Self::Price, Self::Quantity>,
    ) -> (r: Result<(), Self::Err>)
        requires
            holds(self.resting(old(tx)), order.id),
        ensures
            self.reliable() ==> r is Ok,
            r is Ok ==> self.same_elsewhere(old(tx), final(tx)),
            r is Ok ==> self.resting(final(tx)) == replaced(
                lowest_first(self.side()),
                self.resting(old(tx)),
                *order,
            ),
    ;

    /// Takes the order with `order_id` out of the book, and says whether there was one.
    fn delete_by_order_id(&self, tx: &mut Self::Transaction, order_id: &Self::OrderId) -> (r:
        Result<bool, Self::Err>)
        ensures
            self.reliable() ==> r is Ok,
            r is Ok ==> self.same_elsewhere(old(tx), final(tx)),
            r matches Ok(deleted) ==> deleted == holds(self.resting(old(tx)), *order_id)
                && self.resting(final(tx)) == without(self.resting(old(tx)), *order_id),
    ;

    /// The resting order with `order_id`, if there is one.
    fn get_by_order_id(&self, tx: &mut Self::Transaction, order_id: &Self::OrderId) -> (r:
        Result<
            Option<LimitOrder<Self::OrderId, Self::Asset, Self::Price, Self::Quantity>>,
            Self::Err,
        >)
        ensures
            self.reliable() ==> r is Ok,
            r is Ok ==> self.same_elsewhere(old(tx), final(tx)),
            r matches Ok(found) ==> found == lookup(self.resting(old(tx)), *order_id)
                && self.resting(final(tx)) == self.resting(old(tx)),
    ;

    /// The order that is matched next: the first one at the best price.
    fn next(&self, tx: &mut Self::Transaction) -> (r: Result<
        Option<LimitOrder<Self::OrderId, Self::Asset, Self::Price, Self::Quantity>>,
        Self::Err,
    >)
        ensures
            self.reliable() ==> r is Ok,
            r is Ok ==> self.same_elsewhere(old(tx), final(tx)),
            r matches Ok(top) ==> top == head(self.resting(old(tx))) && self.resting(final(tx))
                == self.resting(old(tx)),
    ;
}

} // verus!
