use crate::model::asset::Asset;
use crate::model::order::{StopLimitOrder, StopOrder};
use crate::model::order_id::OrderId;
use crate::model::price::Price;
use crate::model::quantity::Quantity;
use crate::repository::queue::{enqueued, holds, lookup, replaced, slot, without, Queued};
use vstd::prelude::*;

verus! {

/// A stop order or a stop-limit order that waits for the market to reach its stop
/// price.
#[derive(Debug, Clone, Copy, Eq, PartialEq)]
pub enum PendingStopOrder<ID: OrderId, A: Asset, P: Price, Q: Quantity> {
    StopOrder(StopOrder<ID, A, P, Q>),
    StopLimitOrder(StopLimitOrder<ID, A, P, Q>),
}

impl<ID: OrderId, A: Asset, P: Price, Q: Quantity> PendingStopOrder<ID, A, P, Q> {
    /// The id of the order that waits.
    pub open spec fn id_spec(&self) -> ID {
        match *self {
            PendingStopOrder::StopOrder(order) => order.id,
            PendingStopOrder::StopLimitOrder(order) => order.id,
        }
    }

    /// The price that the market has to reach.
    pub open spec fn stop_price_spec(&self) -> P {
        match *self {
            PendingStopOrder::StopOrder(order) => order.stop_price,
            PendingStopOrder::StopLimitOrder(order) => order.stop_price,
        }
    }

    /// The id of the order that waits.
    #[verifier::when_used_as_spec(id_spec)]
    pub fn id(&self) -> (r: ID)
        ensures
            r == self.id_spec(),
    {
        match self {
            PendingStopOrder::StopOrder(order) => order.id,
            PendingStopOrder::StopLimitOrder(order) => order.id,
        }
    }

    /// The price that the market has to reach.
    #[verifier::when_used_as_spec(stop_price_spec)]
    pub fn stop_price(&self) -> (r: P)
        ensures
            r == self.stop_price_spec(),
    {
        match self {
            PendingStopOrder::StopOrder(order) => order.stop_price,
            PendingStopOrder::StopLimitOrder(order) => order.stop_price,
        }
    }
}

impl<ID: OrderId, A: Asset, P: Price, Q: Quantity> Queued for PendingStopOrder<ID, A, P, Q> {
    type Id = ID;

    type Key = P;

    open spec fn queue_id(self) -> ID {
        self.id_spec()
    }

    open spec fn queue_key(self) -> P {
        self.stop_price_spec()
    }

    fn id_of(&self) -> (r: ID) {
        self.id()
    }

    fn key_of(&self) -> (r: P) {
        self.stop_price()
    }
}

/// How many of the entries of `s` the market has reached at `market_price`. In an
/// ordered pool they are its first ones: above the market, those with a stop price at
/// or below `market_price`; below it, those with a stop price at or above.
pub open spec fn reached<T: Queued>(lowest_first: bool, s: Seq<T>, market_price: T::Key) -> int {
    slot(lowest_first, s, market_price)
}

/// The first `limit` entries that the market has reached at `market_price`, or all of
/// them if they are fewer.
pub open spec fn triggered<T: Queued>(
    lowest_first: bool,
    s: Seq<T>,
    market_price: T::Key,
    limit: int,
) -> Seq<T> {
    let n = reached(lowest_first, s, market_price);
    if limit <= 0 {
        Seq::empty()
    } else if limit < n {
        s.subrange(0, limit)
    } else {
        s.subrange(0, n)
    }
}

/// A pool of pending stop orders, seen through a transaction of the caller. One pool
/// holds the orders whose stop price lies above the market, the other those below.
pub trait PendingStopOrderRepository: Send + Sized {
    type Err;

    type Asset: Asset;

    type OrderId: OrderId;

    type Price: Price;

    type Quantity: Quantity;

    type Transaction;

    /// Whether this is the pool above the market. That pool serves its lowest stop price
    /// first; the pool below the market serves its highest first.
    spec fn above_market(&self) -> bool;

    /// The orders that wait here as `tx` sees them: the one that a moving market
    /// reaches first stands first and, at one stop price, the one that came first.
    spec fn pending(&self, tx: &Self::Transaction) -> Seq<
        PendingStopOrder<Self::OrderId, Self::Asset, Self::Price, Self::Quantity>,
    >;

    /// Whatever `before` holds beside the orders of this pool, `after` holds it too.
    spec fn same_elsewhere(&self, before: &Self::Transaction, after: &Self::Transaction) -> bool;

    /// Whether every operation succeeds.
    spec fn reliable(&self) -> bool;

    /// Lets `order` join the pool, behind the orders of its stop price.
    fn create(
        &self,
        tx: &mut Self::Transaction,
        order: &PendingStopOrder<Self::OrderId, Self::Asset, Self::Price, Self::Quantity>,
    ) -> (r: Result<(), Self::Err>)
        requires
            !holds(self.pending(old(tx)), order.id()),
        ensures
            self.reliable() ==> r is Ok,
            r is Ok ==> self.same_elsewhere(old(tx), final(tx)),
            r is Ok ==> self.pending(final(tx)) == enqueued(
                self.above_market(),
                self.pending(old(tx)),
                *order,
            ),
    ;

    /// Puts `order` in the place of the pending order with its id.
    fn update(
        &self,
        tx: &mut Self::Transaction,
        order: &PendingStopOrder<Self::OrderId, Self::Asset, Self::Price, Self::Quantity>,
    ) -> (r: Result<(), Self::Err>)
        requires
            holds(self.pending(old(tx)), order.id()),
        ensures
            self.reliable() ==> r is Ok,
            r is Ok ==> self.same_elsewhere(old(tx), final(tx)),
            r is Ok ==> self.pending(final(tx)) == replaced(
                self.above_market(),
                self.pending(old(tx)),
                *order,
            ),
    ;

    /// Takes the pending order with the id of `order` out of the pool, and says whether
    /// there was one.
    fn delete(
        &self,
        tx: &mut Self::Transaction,
        order: &PendingStopOrder<Self::OrderId, Self::Asset, Self::Price, Self::Quantity>,
    ) -> (r: Result<bool, Self::Err>)
        ensures
            self.reliable() ==> r is Ok,
            r is Ok ==> self.same_elsewhere(old(tx), final(tx)),
            r matches Ok(deleted) ==> deleted == holds(self.pending(old(tx)), order.id())
                && self.pending(final(tx)) == without(self.pending(old(tx)), order.id()),
    ;

    /// Takes the pending order with `order_id` out of the pool, and says whether there
    /// was one.
    fn delete_by_order_id(&self, tx: &mut Self::Transaction, order_id: &Self::OrderId) -> (r:
        Result<bool, Self::Err>)
        ensures
            self.reliable() ==> r is Ok,
            r is Ok ==> self.same_elsewhere(old(tx), final(tx)),
            r matches Ok(deleted) ==> deleted == holds(self.pending(old(tx)), *order_id)
                && self.pending(final(tx)) == without(self.pending(old(tx)), *order_id),
    ;

    /// The pending order with `order_id`, if there is one.
    fn get_by_order_id(&self, tx: &mut Self::Transaction, order_id: &Self::OrderId) -> (r:
        Result<
            Option<PendingStopOrder<Self::OrderId, Self::Asset, Self::Price, Self::Quantity>>,
            Self::Err,
        >)
        ensures
            self.reliable() ==> r is Ok,
            r is Ok ==> self.same_elsewhere(old(tx), final(tx)),
            r matches Ok(found) ==> found == lookup(self.pending(old(tx)), *order_id)
                && self.pending(final(tx)) == self.pending(old(tx)),
    ;

    /// The pending orders that the market has reached at `market_price`, in the order
    /// in which it reached them, and no more than `limit` of them.
    fn get_list_by_market_price(
        &self,
        tx: &mut Self::Transaction,
        market_price: &Self::Price,
        limit: i64,
    ) -> (r: Result<
        Vec<PendingStopOrder<Self::OrderId, Self::Asset, Self::Price, Self::Quantity>>,
        Self::Err,
    >)
        ensures
            self.reliable() ==> r is Ok,
            r is Ok ==> self.same_elsewhere(old(tx), final(tx)),
            r matches Ok(list) ==> list@ == triggered(
                self.above_market(),
                self.pending(old(tx)),
                *market_price,
                limit as int,
            ) && self.pending(final(tx)) == self.pending(old(tx)),
    ;
}

} // verus!
