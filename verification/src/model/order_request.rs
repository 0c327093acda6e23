use crate::model::asset::Asset;
use crate::model::asset_pair::AssetPair;
use crate::model::order_id::OrderId;
use crate::model::order_side::OrderSide;
use crate::model::order_type::OrderType;
use crate::model::price::Price;
use crate::model::quantity::Quantity;
use crate::model::time_in_force::TimeInForce;
use vstd::prelude::*;

verus! {

/// What a caller can ask of the engine.
#[derive(Debug, Clone, Copy, Eq, PartialEq)]
pub enum OrderRequest<ID: OrderId, A: Asset, P: Price, Q: Quantity> {
    Market(MarketOrderRequest<ID, A, Q>),
    Limit(LimitOrderRequest<ID, A, P, Q>),
    /// Once the market reaches the stop price, the order becomes a market order.
    /// A buy with a stop price above the market, or a sell with one below it, limits a
    /// loss; the other two take a profit.
    Stop(StopOrderRequest<ID, A, P, Q>),
    /// Once the market reaches the stop price, the order becomes a limit order.
    StopLimit(StopLimitOrderRequest<ID, A, P, Q>),
    Amend(AmendOrderRequest<ID, A, P, Q>),
    Cancel(CancelOrderRequest<ID, A>),
}

#[derive(Debug, Clone, Copy, Eq, PartialEq)]
pub struct MarketOrderRequest<ID: OrderId, A: Asset, Q: Quantity> {
    pub id: ID,
    pub asset_pair: AssetPair<A>,
    pub side: OrderSide,
    pub quantity: Q,
}

#[derive(Debug, Clone, Copy, Eq, PartialEq)]
pub struct LimitOrderRequest<ID: OrderId, A: Asset, P: Price, Q: Quantity> {
    pub id: ID,
    pub asset_pair: AssetPair<A>,
    pub side: OrderSide,
    pub time_in_force: TimeInForce,
    pub price: P,
    pub quantity: Q,
}

#[derive(Debug, Clone, Copy, Eq, PartialEq)]
pub struct StopOrderRequest<ID: OrderId, A: Asset, P: Price, Q: Quantity> {
    pub id: ID,
    pub asset_pair: AssetPair<A>,
    pub side: OrderSide,
    /// The price that the market has to reach for the order to become a market order.
    pub stop_price: P,
    pub quantity: Q,
}

#[derive(Debug, Clone, Copy, Eq, PartialEq)]
pub struct StopLimitOrderRequest<ID: OrderId, A: Asset, P: Price, Q: Quantity> {
    pub id: ID,
    pub asset_pair: AssetPair<A>,
    pub side: OrderSide,
    /// The price that the market has to reach for the order to become a limit order.
    pub stop_price: P,
    pub time_in_force: TimeInForce,
    pub price: P,
    pub quantity: Q,
}

#[derive(Debug, Clone, Copy, Eq, PartialEq)]
pub struct AmendOrderRequest<ID: OrderId, A: Asset, P: Price, Q: Quantity> {
    pub id: ID,
    pub asset_pair: AssetPair<A>,
    pub target_id: ID,
    pub target_order_type: OrderType,
    pub side: OrderSide,
    pub price: P,
    pub quantity: Q,
}

#[derive(Debug, Clone, Copy, Eq, PartialEq)]
pub struct CancelOrderRequest<ID: OrderId, A: Asset> {
    pub id: ID,
    pub asset_pair: AssetPair<A>,
    pub target_id: ID,
    pub target_order_type: OrderType,
    pub side: OrderSide,
}

impl<ID: OrderId, A: Asset, P: Price, Q: Quantity> OrderRequest<ID, A, P, Q> {
    pub fn new_market(id: ID, asset_pair: AssetPair<A>, side: OrderSide, quantity: Q) -> (r: Self)
        ensures
            r == OrderRequest::<ID, A, P, Q>::Market(
                MarketOrderRequest { id, asset_pair, side, quantity },
            ),
    {
        OrderRequest::Market(MarketOrderRequest { id, asset_pair, side, quantity })
    }

    pub fn new_limit(
        id: ID,
        asset_pair: AssetPair<A>,
        side: OrderSide,
        time_in_force: TimeInForce,
        price: P,
        quantity: Q,
    ) -> (r: Self)
        ensures
            r == OrderRequest::Limit(
                LimitOrderRequest { id, asset_pair, side, time_in_force, price, quantity },
            ),
    {
        OrderRequest::Limit(
            LimitOrderRequest { id, asset_pair, side, time_in_force, price, quantity },
        )
    }

    pub fn new_stop(id: ID, asset_pair: AssetPair<A>, side: OrderSide, stop_price: P, quantity: Q) -> (r:
        Self)
        ensures
            r == OrderRequest::Stop(
                StopOrderRequest { id, asset_pair, side, stop_price, quantity },
            ),
    {
        OrderRequest::Stop(StopOrderRequest { id, asset_pair, side, stop_price, quantity })
    }

    pub fn new_stop_limit(
        id: ID,
        asset_pair: AssetPair<A>,
        side: OrderSide,
        stop_price: P,
        time_in_force: TimeInForce,
        price: P,
        quantity: Q,
    ) -> (r: Self)
        ensures
            r == OrderRequest::StopLimit(
                StopLimitOrderRequest {
                    id,
                    asset_pair,
                    side,
                    stop_price,
                    time_in_force,
                    price,
                    quantity,
                },
            ),
    {
        OrderRequest::StopLimit(
            StopLimitOrderRequest {
                id,
                asset_pair,
                side,
                stop_price,
                time_in_force,
                price,
                quantity,
            },
        )
    }

    pub fn new_amend(
        id: ID,
        asset_pair: AssetPair<A>,
        target_id: ID,
        target_order_type: OrderType,
        side: OrderSide,
        price: P,
        quantity: Q,
    ) -> (r: Self)
        ensures
            r == OrderRequest::Amend(
                AmendOrderRequest {
                    id,
                    asset_pair,
                    target_id,
                    target_order_type,
                    side,
                    price,
                    quantity,
                },
            ),
    {
        OrderRequest::Amend(
            AmendOrderRequest {
                id,
                asset_pair,
                target_id,
                target_order_type,
                side,
                price,
                quantity,
            },
        )
    }

    pub fn new_cancel(
        id: ID,
        asset_pair: AssetPair<A>,
        target_id: ID,
        target_order_type: OrderType,
        side: OrderSide,
    ) -> (r: Self)
        ensures
            r == OrderRequest::<ID, A, P, Q>::Cancel(
                CancelOrderRequest { id, asset_pair, target_id, target_order_type, side },
            ),
    {
        OrderRequest::Cancel(
            CancelOrderRequest { id, asset_pair, target_id, target_order_type, side },
        )
    }
}

} // verus!
