use crate::model::price::Price;
use crate::model::quantity::Quantity;
use crate::models::order_id::OrderId;
use crate::repository::queue::Queued;
use vstd::prelude::*;

verus! {

/// A market order as the order book matches it.
#[derive(Debug, Clone, Copy, Eq, PartialEq)]
pub struct MarketOrder<Q: Quantity> {
    pub order_id: OrderId,
    pub quantity: Q,
}

/// A limit order as it waits in a queue.
#[derive(Debug, Clone, Copy, Eq, PartialEq)]
pub struct LimitOrder<P: Price, Q: Quantity> {
    pub order_id: OrderId,
    pub price: P,
    pub quantity: Q,
}

impl<P: Price, Q: Quantity> Queued for LimitOrder<P, Q> {
    type Id = OrderId;

    type Key = P;

    open spec fn queue_id(self) -> OrderId {
        self.order_id
    }

    open spec fn queue_key(self) -> P {
        self.price
    }

    fn id_of(&self) -> (r: OrderId) {
        self.order_id
    }

    fn key_of(&self) -> (r: P) {
        self.price
    }
}

} // verus!
