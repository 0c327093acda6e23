use crate::matching_engine::machine::Store;
use crate::model::asset::Asset;
use crate::model::order::LimitOrder;
use crate::model::order_id::OrderId;
use crate::model::price::Price;
use crate::model::quantity::Quantity;
use crate::repository::pending_stop_order::PendingStopOrder;
use vstd::prelude::*;

verus! {

/// What the in-memory backend holds. A transaction on it is the store itself, borrowed
/// for writing: to be able to abort, the caller keeps a copy and goes back to it.
#[derive(Debug, Clone)]
pub struct MemoryStore<ID: OrderId, A: Asset, P: Price, Q: Quantity> {
    pub(crate) bids: Vec<LimitOrder<ID, A, P, Q>>,
    pub(crate) asks: Vec<LimitOrder<ID, A, P, Q>>,
    pub(crate) high: Vec<PendingStopOrder<ID, A, P, Q>>,
    pub(crate) low: Vec<PendingStopOrder<ID, A, P, Q>>,
    pub(crate) market_price: Option<P>,
}

impl<ID: OrderId, A: Asset, P: Price, Q: Quantity> View for MemoryStore<ID, A, P, Q> {
    type V = Store<ID, A, P, Q>;

    open(crate) spec fn view(&self) -> Store<ID, A, P, Q> {
        Store {
            bids: self.bids@,
            asks: self.asks@,
            high: self.high@,
            low: self.low@,
            price: self.market_price,
        }
    }
}

impl<ID: OrderId, A: Asset, P: Price, Q: Quantity> MemoryStore<ID, A, P, Q> {
    /// A store with empty books, empty pools and no last traded price.
    pub fn new() -> (r: Self)
        ensures
            r@ == (Store::<ID, A, P, Q> {
                bids: Seq::empty(),
                asks: Seq::empty(),
                high: Seq::empty(),
                low: Seq::empty(),
                price: None,
            }),
            r@.well_formed(),
    {
        let r = Self {
            bids: Vec::new(),
            asks: Vec::new(),
            high: Vec::new(),
            low: Vec::new(),
            market_price: None,
        };
        assert forall|id: ID| #[trigger] r@.places(id) <= 1 by {
            reveal_with_fuel(crate::repository::queue::index_of, 2);
        }
        r
    }

    /// The resting bids, the one that is matched first at the front.
    pub fn bids(&self) -> (r: &Vec<LimitOrder<ID, A, P, Q>>)
        ensures
            r@ == self@.bids,
    {
        &self.bids
    }

    /// The resting asks, the one that is matched first at the front.
    pub fn asks(&self) -> (r: &Vec<LimitOrder<ID, A, P, Q>>)
        ensures
            r@ == self@.asks,
    {
        &self.asks
    }

    /// The stop orders that wait above the market, the one that is reached first at
    /// the front.
    pub fn high_pending_stop_orders(&self) -> (r: &Vec<PendingStopOrder<ID, A, P, Q>>)
        ensures
            r@ == self@.high,
    {
        &self.high
    }

    /// The stop orders that wait below the market, the one that is reached first at
    /// the front.
    pub fn low_pending_stop_orders(&self) -> (r: &Vec<PendingStopOrder<ID, A, P, Q>>)
        ensures
            r@ == self@.low,
    {
        &self.low
    }

    /// The last traded price that has been written down.
    pub fn market_price(&self) -> (r: Option<P>)
        ensures
            r == self@.price,
    {
        self.market_price
    }
}

} // verus!
