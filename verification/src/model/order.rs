use crate::model::asset::Asset;
use crate::model::asset_pair::AssetPair;
use crate::model::order_id::OrderId;
use crate::model::order_side::OrderSide;
use crate::model::price::Price;
use crate::model::quantity::Quantity;
use crate::model::time_in_force::TimeInForce;
use vstd::prelude::*;

verus! {

/// An order to trade at whatever price the book offers. It never rests.
#[derive(Debug, Clone, Copy, Eq, PartialEq)]
pub struct MarketOrder<ID: OrderId, A: Asset, Q: Quantity> {
    pub id: ID,
    pub asset_pair: AssetPair<A>,
    pub side: OrderSide,
    pub quantity: Q,
    pub timestamp_ms: u64,
}

impl<ID: OrderId, A: Asset, Q: Quantity> MarketOrder<ID, A, Q> {
    pub fn new(id: ID, asset_pair: AssetPair<A>, side: OrderSide, quantity: Q, timestamp_ms: u64) -> (r:
        Self)
        ensures
            r == (MarketOrder { id, asset_pair, side, quantity, timestamp_ms }),
    {
        Self { id, asset_pair, side, quantity, timestamp_ms }
    }

    /// The order with `sub` taken from its quantity.
    pub open spec fn reduced(self, sub: Q) -> Self {
        MarketOrder { quantity: self.quantity.minus(sub), ..self }
    }

    pub fn sub_quantity(&self, sub: Q) -> (r: Self)
        requires
            sub.leq(self.quantity),
        ensures
            r == self.reduced(sub),
    {
        Self {
            id: self.id,
            asset_pair: self.asset_pair,
            side: self.side,
            quantity: self.quantity.take(sub),
            timestamp_ms: self.timestamp_ms,
        }
    }
}

/// An order to trade at its price or a better one. What is not filled rests in a book.
#[derive(Debug, Clone, Copy, Eq, PartialEq)]
pub struct LimitOrder<ID: OrderId, A: Asset, P: Price, Q: Quantity> {
    pub id: ID,
    pub asset_pair: AssetPair<A>,
    pub side: OrderSide,
    pub time_in_force: TimeInForce,
    pub price: P,
    pub quantity: Q,
    pub timestamp_ms: u64,
}

impl<ID: OrderId, A: Asset, P: Price, Q: Quantity> LimitOrder<ID, A, P, Q> {
    pub fn new(
        id: ID,
        asset_pair: AssetPair<A>,
        side: OrderSide,
        time_in_force: TimeInForce,
        price: P,
        quantity: Q,
        timestamp_ms: u64,
    ) -> (r: Self)
        ensures
            r == (LimitOrder {
                id,
                asset_pair,
                side,
                time_in_force,
                price,
                quantity,
                timestamp_ms,
            }),
    {
        Self { id, asset_pair, side, time_in_force, price, quantity, timestamp_ms }
    }

    /// The order with `sub` taken from its quantity.
    pub open spec fn reduced(self, sub: Q) -> Self {
        LimitOrder { quantity: self.quantity.minus(sub), ..self }
    }

    pub fn sub_quantity(&self, sub: Q) -> (r: Self)
        requires
            sub.leq(self.quantity),
        ensures
            r == self.reduced(sub),
    {
        Self {
            id: self.id,
            asset_pair: self.asset_pair,
            side: self.side,
            time_in_force: self.time_in_force,
            price: self.price,
            quantity: self.quantity.take(sub),
            timestamp_ms: self.timestamp_ms,
        }
    }
}

/// An order that waits for the market to reach its stop price and then becomes a
/// market order.
#[derive(Debug, Clone, Copy, Eq, PartialEq)]
pub struct StopOrder<ID: OrderId, A: Asset, P: Price, Q: Quantity> {
    pub id: ID,
    pub asset_pair: AssetPair<A>,
    pub side: OrderSide,
    pub stop_price: P,
    pub quantity: Q,
    pub timestamp_ms: u64,
}

impl<ID: OrderId, A: Asset, P: Price, Q: Quantity> StopOrder<ID, A, P, Q> {
    pub fn new(
        id: ID,
        asset_pair: AssetPair<A>,
        side: OrderSide,
        stop_price: P,
        quantity: Q,
        timestamp_ms: u64,
    ) -> (r: Self)
        ensures
            r == (StopOrder { id, asset_pair, side, stop_price, quantity, timestamp_ms }),
    {
        Self { id, asset_pair, side, stop_price, quantity, timestamp_ms }
    }

    /// The market order that the stop order becomes at `timestamp_ms`.
    pub open spec fn issued(self, timestamp_ms: u64) -> MarketOrder<ID, A, Q> {
        MarketOrder {
            id: self.id,
            asset_pair: self.asset_pair,
            side: self.side,
            quantity: self.quantity,
            timestamp_ms,
        }
    }

    pub fn issue_market_order(&self, timestamp_ms: u64) -> (r: MarketOrder<ID, A, Q>)
        ensures
            r == self.issued(timestamp_ms),
    {
        MarketOrder::new(self.id, self.asset_pair, self.side, self.quantity, timestamp_ms)
    }
}

/// An order that waits for the market to reach its stop price and then becomes a
/// limit order.
#[derive(Debug, Clone, Copy, Eq, PartialEq)]
pub struct StopLimitOrder<ID: OrderId, A: Asset, P: Price, Q: Quantity> {
    pub id: ID,
    pub asset_pair: AssetPair<A>,
    pub side: OrderSide,
    pub stop_price: P,
    pub time_in_force: TimeInForce,
    pub price: P,
    pub quantity: Q,
    pub timestamp_ms: u64,
}

impl<ID: OrderId, A: Asset, P: Price, Q: Quantity> StopLimitOrder<ID, A, P, Q> {
    pub fn new(
        id: ID,
        asset_pair: AssetPair<A>,
        side: OrderSide,
        stop_price: P,
        time_in_force: TimeInForce,
        price: P,
        quantity: Q,
        timestamp_ms: u64,
    ) -> (r: Self)
        ensures
            r == (StopLimitOrder {
                id,
                asset_pair,
                side,
                stop_price,
                time_in_force,
                price,
                quantity,
                timestamp_ms,
            }),
    {
        Self { id, asset_pair, side, stop_price, time_in_force, price, quantity, timestamp_ms }
    }

    /// The limit order that the stop-limit order becomes at `timestamp_ms`.
    pub open spec fn issued(self, timestamp_ms: u64) -> LimitOrder<ID, A, P, Q> {
        LimitOrder {
            id: self.id,
            asset_pair: self.asset_pair,
            side: self.side,
            time_in_force: self.time_in_force,
            price: self.price,
            quantity: self.quantity,
            timestamp_ms,
        }
    }

    pub fn issue_limit_order(&self, timestamp_ms: u64) -> (r: LimitOrder<ID, A, P, Q>)
        ensures
            r == self.issued(timestamp_ms),
    {
        LimitOrder::new(
            self.id,
            self.asset_pair,
            self.side,
            self.time_in_force,
            self.price,
            self.quantity,
            timestamp_ms,
        )
    }
}

} // verus!
