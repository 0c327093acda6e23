use crate::model::order_side::OrderSide;
use crate::model::order_type::OrderType;
use crate::model::price::Price;
use crate::model::quantity::Quantity;
use crate::models::order_id::OrderId;
use vstd::prelude::*;

verus! {

/// Something that the order book did. The time is that of the clock of the book, in
/// milliseconds.
#[derive(Debug, Clone, Copy, Eq, PartialEq)]
pub enum OrderBookOutput<P: Price, Q: Quantity> {
    Accepted { id: OrderId, order_type: OrderType, timestamp: u64 },
    Filled {
        id: OrderId,
        side: OrderSide,
        order_type: OrderType,
        price: P,
        quantity: Q,
        timestamp: u64,
    },
    PartiallyFilled {
        id: OrderId,
        side: OrderSide,
        order_type: OrderType,
        price: P,
        quantity: Q,
        timestamp: u64,
    },
    Amended { id: OrderId, target_id: OrderId, price: P, quantity: Q, timestamp: u64 },
    Cancelled { id: OrderId, target_id: OrderId, timestamp: u64 },
}

} // verus!
