use crate::model::asset::Asset;
use crate::model::asset_pair::AssetPair;
use crate::model::order_side::OrderSide;
use crate::model::order_type::OrderType;
use crate::model::price::Price;
use crate::model::quantity::Quantity;
use crate::models::order_id::OrderId;
use vstd::prelude::*;

verus! {

/// What a caller can ask of the order book. The time that an order carries is the
/// time at which the caller made it, in milliseconds.
#[derive(Debug, Clone, Copy, Eq, PartialEq)]
pub enum Order<A: Asset, P: Price, Q: Quantity> {
    Market { id: OrderId, asset_pair: AssetPair<A>, side: OrderSide, quantity: Q, timestamp: u64 },
    Limit {
        id: OrderId,
        asset_pair: AssetPair<A>,
        side: OrderSide,
        price: P,
        quantity: Q,
        timestamp: u64,
    },
    Amend {
        id: OrderId,
        target_id: OrderId,
        target_order_type: OrderType,
        side: OrderSide,
        price: P,
        quantity: Q,
        timestamp: u64,
    },
    Cancel { id: OrderId, target_id: OrderId, target_order_type: OrderType, side: OrderSide },
}

impl<A: Asset, P: Price, Q: Quantity> Order<A, P, Q> {
    pub fn new_market(
        id: OrderId,
        asset_pair: AssetPair<A>,
        side: OrderSide,
        quantity: Q,
        timestamp: u64,
    ) -> (r: Self)
        ensures
            r == (Order::<A, P, Q>::Market { id, asset_pair, side, quantity, timestamp }),
    {
        Self::Market { id, asset_pair, side, quantity, timestamp }
    }

    pub fn new_limit(
        id: OrderId,
        asset_pair: AssetPair<A>,
        side: OrderSide,
        price: P,
        quantity: Q,
        timestamp: u64,
    ) -> (r: Self)
        ensures
            r == (Order::Limit { id, asset_pair, side, price, quantity, timestamp }),
    {
        Self::Limit { id, asset_pair, side, price, quantity, timestamp }
    }

    pub fn new_amend(
        id: OrderId,
        target_id: OrderId,
        target_order_type: OrderType,
        side: OrderSide,
        price: P,
        quantity: Q,
        timestamp: u64,
    ) -> (r: Self)
        ensures
            r == (Order::<A, P, Q>::Amend {
                id,
                target_id,
                target_order_type,
                side,
                price,
                quantity,
                timestamp,
            }),
    {
        Self::Amend { id, target_id, target_order_type, side, price, quantity, timestamp }
    }

    pub fn new_cancel(
        id: OrderId,
        target_id: OrderId,
        target_order_type: OrderType,
        side: OrderSide,
    ) -> (r: Self)
        ensures
            r == (Order::<A, P, Q>::Cancel { id, target_id, target_order_type, side }),
    {
        Self::Cancel { id, target_id, target_order_type, side }
    }
}

} // verus!
