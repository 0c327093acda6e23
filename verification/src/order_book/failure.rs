use crate::models::order_id::OrderId;
use vstd::prelude::*;

verus! {

/// Something that the order book could not do.
#[derive(Debug, Clone, Copy, Eq, PartialEq)]
pub enum OrderBookFailure {
    OrderNotFound { order_id: OrderId, target_order_id: OrderId },
    FailedToEnqueueOrder(OrderId),
    NoMatch(OrderId),
}

} // verus!
