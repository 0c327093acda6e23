use crate::memory::repository::{
    MemoryAskBook, MemoryBidBook, MemoryHighPool, MemoryLowPool, MemoryMarketPrice, NoError,
};
use crate::memory::store::MemoryStore;
use crate::matching_engine::venue::Venue;
use crate::model::asset::Asset;
use crate::model::asset_pair::AssetPair;
use crate::model::clock::standing_at;
use crate::model::order_id::OrderId;
use crate::model::price::Price;
use crate::model::quantity::Quantity;
use vstd::prelude::*;

verus! {

/// A venue that keeps its books, pools and price in a `MemoryStore`. Its clock stands
/// still: it reads the time that it was last set to, so that all that one request
/// reports carries one time.
pub struct MemoryEngine<ID: OrderId, A: Asset, P: Price, Q: Quantity> {
    asset_pair: AssetPair<A>,
    bid_limit_order_repository: MemoryBidBook<ID, A, P, Q>,
    ask_limit_order_repository: MemoryAskBook<ID, A, P, Q>,
    high_pending_stop_order_repository: MemoryHighPool<ID, A, P, Q>,
    low_pending_stop_order_repository: MemoryLowPool<ID, A, P, Q>,
    market_price_repository: MemoryMarketPrice<ID, A, P, Q>,
    now_ms: u64,
    readings: Ghost<nat>,
}

impl<ID: OrderId + Send, A: Asset + Send, P: Price + Send, Q: Quantity + Send> MemoryEngine<
    ID,
    A,
    P,
    Q,
> {
    /// The time that the clock stands at.
    pub closed spec fn time(&self) -> u64 {
        self.now_ms
    }

    /// An engine for `asset_pair` whose clock stands at 0.
    pub fn new(asset_pair: AssetPair<A>) -> (r: Self)
        ensures
            r.pair() == asset_pair,
            r.time() == 0,
    {
        Self {
            asset_pair,
            bid_limit_order_repository: MemoryBidBook::new(),
            ask_limit_order_repository: MemoryAskBook::new(),
            high_pending_stop_order_repository: MemoryHighPool::new(),
            low_pending_stop_order_repository: MemoryLowPool::new(),
            market_price_repository: MemoryMarketPrice::new(),
            now_ms: 0,
            readings: Ghost(0),
        }
    }

    /// Sets the clock to `now_ms`.
    pub fn set_time(&mut self, now_ms: u64)
        ensures
            final(self).time() == now_ms,
            final(self).pair() == old(self).pair(),
            final(self).bid_book() == old(self).bid_book(),
            final(self).ask_book() == old(self).ask_book(),
            final(self).high_pool() == old(self).high_pool(),
            final(self).low_pool() == old(self).low_pool(),
            final(self).price_cell() == old(self).price_cell(),
            final(self).ticks() == old(self).ticks(),
    {
        self.now_ms = now_ms;
    }
}

impl<ID: OrderId + Send, A: Asset + Send, P: Price + Send, Q: Quantity + Send> Venue for MemoryEngine<
    ID,
    A,
    P,
    Q,
> {
    type Err = NoError;

    type Asset = A;

    type OrderId = ID;

    type Price = P;

    type Quantity = Q;

    type Transaction = MemoryStore<ID, A, P, Q>;

    type BidLimitOrderRepository = MemoryBidBook<ID, A, P, Q>;

    type AskLimitOrderRepository = MemoryAskBook<ID, A, P, Q>;

    type HighPendingStopOrderRepository = MemoryHighPool<ID, A, P, Q>;

    type LowPendingStopOrderRepository = MemoryLowPool<ID, A, P, Q>;

    type MarketPriceRepository = MemoryMarketPrice<ID, A, P, Q>;

    closed spec fn pair(&self) -> AssetPair<A> {
        self.asset_pair
    }

    closed spec fn bid_book(&self) -> MemoryBidBook<ID, A, P, Q> {
        self.bid_limit_order_repository
    }

    closed spec fn ask_book(&self) -> MemoryAskBook<ID, A, P, Q> {
        self.ask_limit_order_repository
    }

    closed spec fn high_pool(&self) -> MemoryHighPool<ID, A, P, Q> {
        self.high_pending_stop_order_repository
    }

    closed spec fn low_pool(&self) -> MemoryLowPool<ID, A, P, Q> {
        self.low_pending_stop_order_repository
    }

    closed spec fn price_cell(&self) -> MemoryMarketPrice<ID, A, P, Q> {
        self.market_price_repository
    }

    open spec fn timeline(&self) -> spec_fn(nat) -> u64 {
        standing_at(self.time())
    }

    closed spec fn ticks(&self) -> nat {
        self.readings@
    }

    proof fn lemma_repositories(&self, before: Self::Transaction, after: Self::Transaction) {
    }

    fn asset_pair(&self) -> (r: &AssetPair<A>) {
        &self.asset_pair
    }

    fn bid_limit_order_repository(&self) -> (r: &MemoryBidBook<ID, A, P, Q>) {
        &self.bid_limit_order_repository
    }

    fn ask_limit_order_repository(&self) -> (r: &MemoryAskBook<ID, A, P, Q>) {
        &self.ask_limit_order_repository
    }

    fn high_pending_stop_order_repository(&self) -> (r: &MemoryHighPool<ID, A, P, Q>) {
        &self.high_pending_stop_order_repository
    }

    fn low_pending_stop_order_repository(&self) -> (r: &MemoryLowPool<ID, A, P, Q>) {
        &self.low_pending_stop_order_repository
    }

    fn market_price_repository(&self) -> (r: &MemoryMarketPrice<ID, A, P, Q>) {
        &self.market_price_repository
    }

    fn current_timestamp_ms(&mut self) -> (r: u64) {
        self.readings = Ghost(self.readings@ + 1);
        self.now_ms
    }
}

} // verus!
