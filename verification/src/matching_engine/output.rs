use crate::model::order_id::OrderId;
use crate::model::order_side::OrderSide;
use crate::model::order_type::OrderType;
use crate::model::price::Price;
use crate::model::quantity::Quantity;
use vstd::prelude::*;

verus! {

/// What one request did: the last traded price once it is done, and what happened, in
/// the order in which it happened.
#[derive(Debug)]
pub struct MatchingEngineOutput<ID: OrderId, P: Price, Q: Quantity> {
    pub market_price: Option<P>,
    pub events: Vec<Result<MatchingEngineEvent<ID, P, Q>, MatchingEngineFailure<ID>>>,
}

impl<ID: OrderId, P: Price, Q: Quantity> MatchingEngineOutput<ID, P, Q> {
    pub fn new(market_price: Option<P>) -> (r: Self)
        ensures
            r.market_price == market_price,
            r.events@ == Seq::<
                Result<MatchingEngineEvent<ID, P, Q>, MatchingEngineFailure<ID>>,
            >::empty(),
    {
        Self { market_price, events: Vec::new() }
    }

    pub fn set_market_price(&mut self, price: P)
        ensures
            final(self).market_price == Some(price),
            final(self).events == old(self).events,
    {
        self.market_price = Some(price);
    }

    pub fn push(&mut self, event: Result<MatchingEngineEvent<ID, P, Q>, MatchingEngineFailure<ID>>)
        ensures
            final(self).market_price == old(self).market_price,
            final(self).events@ == old(self).events@.push(event),
    {
        self.events.push(event)
    }
}

/// Something that the engine did.
#[derive(Debug, Clone, Copy, Eq, PartialEq)]
pub enum MatchingEngineEvent<ID: OrderId, P: Price, Q: Quantity> {
    Accepted { id: ID, order_type: OrderType, timestamp_ms: u64 },
    Filled {
        id: ID,
        side: OrderSide,
        order_type: OrderType,
        price: P,
        quantity: Q,
        timestamp_ms: u64,
    },
    PartiallyFilled {
        id: ID,
        side: OrderSide,
        order_type: OrderType,
        price: P,
        quantity: Q,
        timestamp_ms: u64,
    },
    Amended { id: ID, target_id: ID, price: P, quantity: Q, timestamp_ms: u64 },
    Cancelled { id: ID, target_id: ID, timestamp_ms: u64 },
    StopOrderIssueMarketOrder { id: ID, timestamp_ms: u64 },
    StopLimitOrderIssueLimitOrder { id: ID, timestamp_ms: u64 },
}

/// Something that the engine could not do. The request goes on all the same.
#[derive(Debug, Clone, Copy, Eq, PartialEq)]
pub enum MatchingEngineFailure<ID: OrderId> {
    OrderNotFound { order_id: ID, target_order_id: ID },
    NoMatch(ID),
    MissingMarketPriceForStopOrder(ID),
}

} // verus!
