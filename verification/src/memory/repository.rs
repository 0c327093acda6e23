use crate::memory::queue::{dequeue, enqueue, find, first_of, reached_by, replace};
use crate::memory::store::MemoryStore;
use crate::model::asset::Asset;
use crate::model::order::LimitOrder;
use crate::model::order_id::OrderId;
use crate::model::order_side::OrderSide;
use crate::model::price::Price;
use crate::model::quantity::Quantity;
use crate::repository::limit_order::LimitOrderRepository;
use crate::repository::market_price::MarketPriceRepository;
use crate::repository::pending_stop_order::{PendingStopOrder, PendingStopOrderRepository};
use std::marker::PhantomData;
use vstd::prelude::*;

verus! {

/// The error of a repository that never fails. No operation of the in-memory backend
/// hands one out.
#[derive(Debug, Clone, Copy, Eq, PartialEq)]
pub struct NoError;

/// The book of the bids of a `MemoryStore`.
#[derive(Debug)]
pub struct MemoryBidBook<ID: OrderId, A: Asset, P: Price, Q: Quantity> {
    marker: PhantomData<(ID, A, P, Q)>,
}

impl<ID: OrderId, A: Asset, P: Price, Q: Quantity> MemoryBidBook<ID, A, P, Q> {
    pub fn new() -> (r: Self) {
        Self { marker: PhantomData }
    }
}

/// The book of the asks of a `MemoryStore`.
#[derive(Debug)]
pub struct MemoryAskBook<ID: OrderId, A: Asset, P: Price, Q: Quantity> {
    marker: PhantomData<(ID, A, P, Q)>,
}

impl<ID: OrderId, A: Asset, P: Price, Q: Quantity> MemoryAskBook<ID, A, P, Q> {
    pub fn new() -> (r: Self) {
        Self { marker: PhantomData }
    }
}

/// The pool of the stop orders above the market of a `MemoryStore`.
#[derive(Debug)]
pub struct MemoryHighPool<ID: OrderId, A: Asset, P: Price, Q: Quantity> {
    marker: PhantomData<(ID, A, P, Q)>,
}

impl<ID: OrderId, A: Asset, P: Price, Q: Quantity> MemoryHighPool<ID, A, P, Q> {
    pub fn new() -> (r: Self) {
        Self { marker: PhantomData }
    }
}

/// The pool of the stop orders below the market of a `MemoryStore`.
#[derive(Debug)]
pub struct MemoryLowPool<ID: OrderId, A: Asset, P: Price, Q: Quantity> {
    marker: PhantomData<(ID, A, P, Q)>,
}

impl<ID: OrderId, A: Asset, P: Price, Q: Quantity> MemoryLowPool<ID, A, P, Q> {
    pub fn new() -> (r: Self) {
        Self { marker: PhantomData }
    }
}

/// The price cell of a `MemoryStore`.
#[derive(Debug)]
pub struct MemoryMarketPrice<ID: OrderId, A: Asset, P: Price, Q: Quantity> {
    marker: PhantomData<(ID, A, P, Q)>,
}

impl<ID: OrderId, A: Asset, P: Price, Q: Quantity> MemoryMarketPrice<ID, A, P, Q> {
    pub fn new() -> (r: Self) {
        Self { marker: PhantomData }
    }
}

impl<ID: OrderId + Send, A: Asset + Send, P: Price + Send, Q: Quantity + Send> LimitOrderRepository for MemoryBidBook<
    ID,
    A,
    P,
    Q,
> {
    type Err = NoError;

    type Asset = A;

    type OrderId = ID;

    type Price = P;

    type Quantity = Q;

    type Transaction = MemoryStore<ID, A, P, Q>;

    open spec fn side(&self) -> OrderSide {
        OrderSide::Bid
    }

    open spec fn resting(&self, tx: &Self::Transaction) -> Seq<LimitOrder<ID, A, P, Q>> {
        tx@.bids
    }

    open spec fn same_elsewhere(&self, before: &Self::Transaction, after: &Self::Transaction) -> bool {
        &&& after@.asks == before@.asks
        &&& after@.high == before@.high
        &&& after@.low == before@.low
        &&& after@.price == before@.price
    }

    open spec fn reliable(&self) -> bool {
        true
    }

    fn create(&self, tx: &mut Self::Transaction, order: &LimitOrder<ID, A, P, Q>) -> (r: Result<
        (),
        Self::Err,
    >) {
        enqueue(&mut tx.bids, false, *order);
        Ok(())
    }

    fn update(&self, tx: &mut Self::Transaction, order: &LimitOrder<ID, A, P, Q>) -> (r: Result<
        (),
        Self::Err,
    >) {
        replace(&mut tx.bids, false, *order);
        Ok(())
    }

    fn delete_by_order_id(&self, tx: &mut Self::Transaction, order_id: &ID) -> (r: Result<
        bool,
        Self::Err,
    >) {
        Ok(dequeue(&mut tx.bids, order_id))
    }

    fn get_by_order_id(&self, tx: &mut Self::Transaction, order_id: &ID) -> (r: Result<
        Option<LimitOrder<ID, A, P, Q>>,
        Self::Err,
    >) {
        Ok(find(&tx.bids, order_id))
    }

    fn next(&self, tx: &mut Self::Transaction) -> (r: Result<
        Option<LimitOrder<ID, A, P, Q>>,
        Self::Err,
    >) {
        Ok(first_of(&tx.bids))
    }
}

impl<ID: OrderId + Send, A: Asset + Send, P: Price + Send, Q: Quantity + Send> LimitOrderRepository for MemoryAskBook<
    ID,
    A,
    P,
    Q,
> {
    type Err = NoError;

    type Asset = A;

    type OrderId = ID;

    type Price = P;

    type Quantity = Q;

    type Transaction = MemoryStore<ID, A, P, Q>;

    open spec fn side(&self) -> OrderSide {
        OrderSide::Ask
    }

    open spec fn resting(&self, tx: &Self::Transaction) -> Seq<LimitOrder<ID, A, P, Q>> {
        tx@.asks
    }

    open spec fn same_elsewhere(&self, before: &Self::Transaction, after: &Self::Transaction) -> bool {
        &&& after@.bids == before@.bids
        &&& after@.high == before@.high
        &&& after@.low == before@.low
        &&& after@.price == before@.price
    }

    open spec fn reliable(&self) -> bool {
        true
    }

    fn create(&self, tx: &mut Self::Transaction, order: &LimitOrder<ID, A, P, Q>) -> (r: Result<
        (),
        Self::Err,
    >) {
        enqueue(&mut tx.asks, true, *order);
        Ok(())
    }

    fn update(&self, tx: &mut Self::Transaction, order: &LimitOrder<ID, A, P, Q>) -> (r: Result<
        (),
        Self::Err,
    >) {
        replace(&mut tx.asks, true, *order);
        Ok(())
    }

    fn delete_by_order_id(&self, tx: &mut Self::Transaction, order_id: &ID) -> (r: Result<
        bool,
        Self::Err,
    >) {
        Ok(dequeue(&mut tx.asks, order_id))
    }

    fn get_by_order_id(&self, tx: &mut Self::Transaction, order_id: &ID) -> (r: Result<
        Option<LimitOrder<ID, A, P, Q>>,
        Self::Err,
    >) {
        Ok(find(&tx.asks, order_id))
    }

    fn next(&self, tx: &mut Self::Transaction) -> (r: Result<
        Option<LimitOrder<ID, A, P, Q>>,
        Self::Err,
    >) {
        Ok(first_of(&tx.asks))
    }
}

impl<ID: OrderId + Send, A: Asset + Send, P: Price + Send, Q: Quantity + Send> PendingStopOrderRepository for MemoryHighPool<
    ID,
    A,
    P,
    Q,
> {
    type Err = NoError;

    type Asset = A;

    type OrderId = ID;

    type Price = P;

    type Quantity = Q;

    type Transaction = MemoryStore<ID, A, P, Q>;

    open spec fn above_market(&self) -> bool {
        true
    }

    open spec fn pending(&self, tx: &Self::Transaction) -> Seq<PendingStopOrder<ID, A, P, Q>> {
        tx@.high
    }

    open spec fn same_elsewhere(&self, before: &Self::Transaction, after: &Self::Transaction) -> bool {
        &&& after@.bids == before@.bids
        &&& after@.asks == before@.asks
        &&& after@.low == before@.low
        &&& after@.price == before@.price
    }

    open spec fn reliable(&self) -> bool {
        true
    }

    fn create(&self, tx: &mut Self::Transaction, order: &PendingStopOrder<ID, A, P, Q>) -> (r:
        Result<(), Self::Err>) {
        enqueue(&mut tx.high, true, *order);
        Ok(())
    }

    fn update(&self, tx: &mut Self::Transaction, order: &PendingStopOrder<ID, A, P, Q>) -> (r:
        Result<(), Self::Err>) {
        replace(&mut tx.high, true, *order);
        Ok(())
    }

    fn delete(&self, tx: &mut Self::Transaction, order: &PendingStopOrder<ID, A, P, Q>) -> (r:
        Result<bool, Self::Err>) {
        let id = order.id();
        Ok(dequeue(&mut tx.high, &id))
    }

    fn delete_by_order_id(&self, tx: &mut Self::Transaction, order_id: &ID) -> (r: Result<
        bool,
        Self::Err,
    >) {
        Ok(dequeue(&mut tx.high, order_id))
    }

    fn get_by_order_id(&self, tx: &mut Self::Transaction, order_id: &ID) -> (r: Result<
        Option<PendingStopOrder<ID, A, P, Q>>,
        Self::Err,
    >) {
        Ok(find(&tx.high, order_id))
    }

    fn get_list_by_market_price(&self, tx: &mut Self::Transaction, market_price: &P, limit: i64) -> (r:
        Result<Vec<PendingStopOrder<ID, A, P, Q>>, Self::Err>) {
        Ok(reached_by(&tx.high, true, market_price, limit))
    }
}

impl<ID: OrderId + Send, A: Asset + Send, P: Price + Send, Q: Quantity + Send> PendingStopOrderRepository for MemoryLowPool<
    ID,
    A,
    P,
    Q,
> {
    type Err = NoError;

    type Asset = A;

    type OrderId = ID;

    type Price = P;

    type Quantity = Q;

    type Transaction = MemoryStore<ID, A, P, Q>;

    open spec fn above_market(&self) -> bool {
        false
    }

    open spec fn pending(&self, tx: &Self::Transaction) -> Seq<PendingStopOrder<ID, A, P, Q>> {
        tx@.low
    }

    open spec fn same_elsewhere(&self, before: &Self::Transaction, after: &Self::Transaction) -> bool {
        &&& after@.bids == before@.bids
        &&& after@.asks == before@.asks
        &&& after@.high == before@.high
        &&& after@.price == before@.price
    }

    open spec fn reliable(&self) -> bool {
        true
    }

    fn create(&self, tx: &mut Self::Transaction, order: &PendingStopOrder<ID, A, P, Q>) -> (r:
        Result<(), Self::Err>) {
        enqueue(&mut tx.low, false, *order);
        Ok(())
    }

    fn update(&self, tx: &mut Self::Transaction, order: &PendingStopOrder<ID, A, P, Q>) -> (r:
        Result<(), Self::Err>) {
        replace(&mut tx.low, false, *order);
        Ok(())
    }

    fn delete(&self, tx: &mut Self::Transaction, order: &PendingStopOrder<ID, A, P, Q>) -> (r:
        Result<bool, Self::Err>) {
        let id = order.id();
        Ok(dequeue(&mut tx.low, &id))
    }

    fn delete_by_order_id(&self, tx: &mut Self::Transaction, order_id: &ID) -> (r: Result<
        bool,
        Self::Err,
    >) {
        Ok(dequeue(&mut tx.low, order_id))
    }

    fn get_by_order_id(&self, tx: &mut Self::Transaction, order_id: &ID) -> (r: Result<
        Option<PendingStopOrder<ID, A, P, Q>>,
        Self::Err,
    >) {
        Ok(find(&tx.low, order_id))
    }

    fn get_list_by_market_price(&self, tx: &mut Self::Transaction, market_price: &P, limit: i64) -> (r:
        Result<Vec<PendingStopOrder<ID, A, P, Q>>, Self::Err>) {
        Ok(reached_by(&tx.low, false, market_price, limit))
    }
}

impl<ID: OrderId + Send, A: Asset + Send, P: Price + Send, Q: Quantity + Send> MarketPriceRepository for MemoryMarketPrice<
    ID,
    A,
    P,
    Q,
> {
    type Err = NoError;

    type Price = P;

    type Transaction = MemoryStore<ID, A, P, Q>;

    open spec fn price(&self, tx: &Self::Transaction) -> Option<P> {
        tx@.price
    }

    open spec fn same_elsewhere(&self, before: &Self::Transaction, after: &Self::Transaction) -> bool {
        &&& after@.bids == before@.bids
        &&& after@.asks == before@.asks
        &&& after@.high == before@.high
        &&& after@.low == before@.low
    }

    open spec fn reliable(&self) -> bool {
        true
    }

    fn update(&self, tx: &mut Self::Transaction, price: &P) -> (r: Result<(), Self::Err>) {
        tx.market_price = Some(*price);
        Ok(())
    }

    fn get(&self, tx: &mut Self::Transaction) -> (r: Result<Option<P>, Self::Err>) {
        Ok(tx.market_price)
    }
}

} // verus!
