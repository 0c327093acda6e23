use crate::matching_engine::machine::{Machine, Store};
use crate::matching_engine::output::MatchingEngineOutput;
use crate::model::asset::Asset;
use crate::model::asset_pair::AssetPair;
use crate::model::order::LimitOrder;
use crate::model::order_id::OrderId;
use crate::model::order_side::OrderSide;
use crate::model::price::Price;
use crate::model::quantity::Quantity;
use crate::repository::limit_order::{lowest_first, LimitOrderRepository};
use crate::repository::market_price::MarketPriceRepository;
use crate::repository::pending_stop_order::{
    triggered, PendingStopOrder, PendingStopOrderRepository,
};
use crate::repository::queue::{enqueued, head, holds, lookup, replaced, without};
use vstd::prelude::*;

verus! {

/// The place where one asset pair is traded: its two books, its two pools of stop
/// orders, the cell of the last traded price, and the clock by which it is run.
pub trait Venue: Sized {
    type Err;

    type Asset: Asset;

    type OrderId: OrderId;

    type Price: Price;

    type Quantity: Quantity;

    type Transaction;

    type BidLimitOrderRepository: LimitOrderRepository<
        Err = Self::Err,
        Asset = Self::Asset,
        OrderId = Self::OrderId,
        Price = Self::Price,
        Quantity = Self::Quantity,
        Transaction = Self::Transaction,
    >;

    type AskLimitOrderRepository: LimitOrderRepository<
        Err = Self::Err,
        Asset = Self::Asset,
        OrderId = Self::OrderId,
        Price = Self::Price,
        Quantity = Self::Quantity,
        Transaction = Self::Transaction,
    >;

    type HighPendingStopOrderRepository: PendingStopOrderRepository<
        Err = Self::Err,
        Asset = Self::Asset,
        OrderId = Self::OrderId,
        Price = Self::Price,
        Quantity = Self::Quantity,
        Transaction = Self::Transaction,
    >;

    type LowPendingStopOrderRepository: PendingStopOrderRepository<
        Err = Self::Err,
        Asset = Self::Asset,
        OrderId = Self::OrderId,
        Price = Self::Price,
        Quantity = Self::Quantity,
        Transaction = Self::Transaction,
    >;

    type MarketPriceRepository: MarketPriceRepository<
        Err = Self::Err,
        Price = Self::Price,
        Transaction = Self::Transaction,
    >;

    /// The asset pair that the engine trades.
    spec fn pair(&self) -> AssetPair<Self::Asset>;

    /// The book of the bids.
    spec fn bid_book(&self) -> Self::BidLimitOrderRepository;

    /// The book of the asks.
    spec fn ask_book(&self) -> Self::AskLimitOrderRepository;

    /// The pool of the stop orders above the market.
    spec fn high_pool(&self) -> Self::HighPendingStopOrderRepository;

    /// The pool of the stop orders below the market.
    spec fn low_pool(&self) -> Self::LowPendingStopOrderRepository;

    /// The cell of the last traded price.
    spec fn price_cell(&self) -> Self::MarketPriceRepository;

    /// What the clock reads at its first reading, at its second, and so on. The engine
    /// knows the readings only as it takes them; this gives them a name.
    spec fn timeline(&self) -> spec_fn(nat) -> u64;

    /// How many readings of the clock have been taken.
    spec fn ticks(&self) -> nat;

    /// The repositories are what their names say, and none of them writes what
    /// another one holds.
    proof fn lemma_repositories(&self, before: Self::Transaction, after: Self::Transaction)
        ensures
            self.bid_book().side() == OrderSide::Bid,
            self.ask_book().side() == OrderSide::Ask,
            self.high_pool().above_market(),
            !self.low_pool().above_market(),
            self.bid_book().same_elsewhere(&before, &after) ==> {
                &&& self.ask_book().resting(&after) == self.ask_book().resting(&before)
                &&& self.high_pool().pending(&after) == self.high_pool().pending(&before)
                &&& self.low_pool().pending(&after) == self.low_pool().pending(&before)
                &&& self.price_cell().price(&after) == self.price_cell().price(&before)
            },
            self.ask_book().same_elsewhere(&before, &after) ==> {
                &&& self.bid_book().resting(&after) == self.bid_book().resting(&before)
                &&& self.high_pool().pending(&after) == self.high_pool().pending(&before)
                &&& self.low_pool().pending(&after) == self.low_pool().pending(&before)
                &&& self.price_cell().price(&after) == self.price_cell().price(&before)
            },
            self.high_pool().same_elsewhere(&before, &after) ==> {
                &&& self.bid_book().resting(&after) == self.bid_book().resting(&before)
                &&& self.ask_book().resting(&after) == self.ask_book().resting(&before)
                &&& self.low_pool().pending(&after) == self.low_pool().pending(&before)
                &&& self.price_cell().price(&after) == self.price_cell().price(&before)
            },
            self.low_pool().same_elsewhere(&before, &after) ==> {
                &&& self.bid_book().resting(&after) == self.bid_book().resting(&before)
                &&& self.ask_book().resting(&after) == self.ask_book().resting(&before)
                &&& self.high_pool().pending(&after) == self.high_pool().pending(&before)
                &&& self.price_cell().price(&after) == self.price_cell().price(&before)
            },
            self.price_cell().same_elsewhere(&before, &after) ==> {
                &&& self.bid_book().resting(&after) == self.bid_book().resting(&before)
                &&& self.ask_book().resting(&after) == self.ask_book().resting(&before)
                &&& self.high_pool().pending(&after) == self.high_pool().pending(&before)
                &&& self.low_pool().pending(&after) == self.low_pool().pending(&before)
            },
    ;

    fn asset_pair(&self) -> (r: &AssetPair<Self::Asset>)
        ensures
            *r == self.pair(),
    ;

    fn bid_limit_order_repository(&self) -> (r: &Self::BidLimitOrderRepository)
        ensures
            *r == self.bid_book(),
    ;

    fn ask_limit_order_repository(&self) -> (r: &Self::AskLimitOrderRepository)
        ensures
            *r == self.ask_book(),
    ;

    fn high_pending_stop_order_repository(&self) -> (r: &Self::HighPendingStopOrderRepository)
        ensures
            *r == self.high_pool(),
    ;

    fn low_pending_stop_order_repository(&self) -> (r: &Self::LowPendingStopOrderRepository)
        ensures
            *r == self.low_pool(),
    ;

    fn market_price_repository(&self) -> (r: &Self::MarketPriceRepository)
        ensures
            *r == self.price_cell(),
    ;

    /// Reads the clock: the milliseconds since the start of 1970, or whatever time the
    /// engine is run by.
    fn current_timestamp_ms(&mut self) -> (r: u64)
        ensures
            r == (old(self).timeline())(old(self).ticks()),
            final(self).ticks() == old(self).ticks() + 1,
            final(self).timeline() == old(self).timeline(),
            final(self).pair() == old(self).pair(),
            final(self).bid_book() == old(self).bid_book(),
            final(self).ask_book() == old(self).ask_book(),
            final(self).high_pool() == old(self).high_pool(),
            final(self).low_pool() == old(self).low_pool(),
            final(self).price_cell() == old(self).price_cell(),
    ;
}

/// What the storage of `venue` holds as `tx` sees it.
pub open spec fn store_of<V: Venue>(venue: &V, tx: &V::Transaction) -> Store<
    V::OrderId,
    V::Asset,
    V::Price,
    V::Quantity,
> {
    Store {
        bids: venue.bid_book().resting(tx),
        asks: venue.ask_book().resting(tx),
        high: venue.high_pool().pending(tx),
        low: venue.low_pool().pending(tx),
        price: venue.price_cell().price(tx),
    }
}

/// All that an engine works on at `venue`: the storage as `tx` sees it, the output
/// `out`, and the clock.
pub open spec fn machine_of<V: Venue>(
    venue: &V,
    tx: &V::Transaction,
    out: &MatchingEngineOutput<V::OrderId, V::Price, V::Quantity>,
) -> Machine<V::OrderId, V::Asset, V::Price, V::Quantity> {
    Machine {
        store: store_of(venue, tx),
        market_price: out.market_price,
        events: out.events@,
        timeline: venue.timeline(),
        ticks: venue.ticks(),
    }
}

/// What an engine finds at `venue` when a request comes in: the storage as `tx` sees
/// it, the clock, and nothing reported yet.
pub open spec fn machine_at<V: Venue>(venue: &V, tx: &V::Transaction) -> Machine<
    V::OrderId,
    V::Asset,
    V::Price,
    V::Quantity,
> {
    Machine {
        store: store_of(venue, tx),
        market_price: None,
        events: Seq::empty(),
        timeline: venue.timeline(),
        ticks: venue.ticks(),
    }
}

/// `a` and `b` are one venue: the same pair on the same repositories. Their clocks may
/// have been read a different number of times.
pub open spec fn same_venue<V: Venue>(a: &V, b: &V) -> bool {
    &&& a.pair() == b.pair()
    &&& a.bid_book() == b.bid_book()
    &&& a.ask_book() == b.ask_book()
    &&& a.high_pool() == b.high_pool()
    &&& a.low_pool() == b.low_pool()
    &&& a.price_cell() == b.price_cell()
    &&& a.timeline() == b.timeline()
}

/// Whether no repository of `venue` ever reports an error.
pub open spec fn reliable<V: Venue>(venue: &V) -> bool {
    &&& venue.bid_book().reliable()
    &&& venue.ask_book().reliable()
    &&& venue.high_pool().reliable()
    &&& venue.low_pool().reliable()
    &&& venue.price_cell().reliable()
}

/// Asks the book of `side` for the order that is matched next.
pub fn next_order<V: Venue>(venue: &V, tx: &mut V::Transaction, side: OrderSide) -> (r: Result<
    Option<LimitOrder<V::OrderId, V::Asset, V::Price, V::Quantity>>,
    V::Err,
>)
    ensures
        reliable(venue) ==> r is Ok,
        r is Ok ==> store_of(venue, final(tx)) == store_of(venue, old(tx)),
        r matches Ok(top) ==> top == head(store_of(venue, old(tx)).book(side)),
{
    let ghost before = *tx;
    let r = match side {
        OrderSide::Bid => venue.bid_limit_order_repository().next(tx),
        OrderSide::Ask => venue.ask_limit_order_repository().next(tx),
    };
    proof {
        venue.lemma_repositories(before, *tx);
    }
    r
}

/// Asks the book of `side` for the order with `id`.
pub fn find_order<V: Venue>(
    venue: &V,
    tx: &mut V::Transaction,
    side: OrderSide,
    id: &V::OrderId,
) -> (r: Result<Option<LimitOrder<V::OrderId, V::Asset, V::Price, V::Quantity>>, V::Err>)
    ensures
        reliable(venue) ==> r is Ok,
        r is Ok ==> store_of(venue, final(tx)) == store_of(venue, old(tx)),
        r matches Ok(found) ==> found == lookup(store_of(venue, old(tx)).book(side), *id),
{
    let ghost before = *tx;
    let r = match side {
        OrderSide::Bid => venue.bid_limit_order_repository().get_by_order_id(tx, id),
        OrderSide::Ask => venue.ask_limit_order_repository().get_by_order_id(tx, id),
    };
    proof {
        venue.lemma_repositories(before, *tx);
    }
    r
}

/// Has `order` join the book of `side`.
pub fn create_order<V: Venue>(
    venue: &V,
    tx: &mut V::Transaction,
    side: OrderSide,
    order: &LimitOrder<V::OrderId, V::Asset, V::Price, V::Quantity>,
) -> (r: Result<(), V::Err>)
    requires
        !holds(store_of(venue, old(tx)).book(side), order.id),
    ensures
        reliable(venue) ==> r is Ok,
        r is Ok ==> store_of(venue, final(tx)) == store_of(venue, old(tx)).with_book(
            side,
            enqueued(lowest_first(side), store_of(venue, old(tx)).book(side), *order),
        ),
{
    let ghost before = *tx;
    let r = match side {
        OrderSide::Bid => venue.bid_limit_order_repository().create(tx, order),
        OrderSide::Ask => venue.ask_limit_order_repository().create(tx, order),
    };
    proof {
        venue.lemma_repositories(before, *tx);
    }
    r
}

/// Has the book of `side` put `order` in the place of the order with its id.
pub fn update_order<V: Venue>(
    venue: &V,
    tx: &mut V::Transaction,
    side: OrderSide,
    order: &LimitOrder<V::OrderId, V::Asset, V::Price, V::Quantity>,
) -> (r: Result<(), V::Err>)
    requires
        holds(store_of(venue, old(tx)).book(side), order.id),
    ensures
        reliable(venue) ==> r is Ok,
        r is Ok ==> store_of(venue, final(tx)) == store_of(venue, old(tx)).with_book(
            side,
            replaced(lowest_first(side), store_of(venue, old(tx)).book(side), *order),
        ),
{
    let ghost before = *tx;
    let r = match side {
        OrderSide::Bid => venue.bid_limit_order_repository().update(tx, order),
        OrderSide::Ask => venue.ask_limit_order_repository().update(tx, order),
    };
    proof {
        venue.lemma_repositories(before, *tx);
    }
    r
}

/// Has the book of `side` drop the order with `id`, and says whether there was one.
pub fn delete_order<V: Venue>(
    venue: &V,
    tx: &mut V::Transaction,
    side: OrderSide,
    id: &V::OrderId,
) -> (r: Result<bool, V::Err>)
    ensures
        reliable(venue) ==> r is Ok,
        r matches Ok(deleted) ==> deleted == holds(store_of(venue, old(tx)).book(side), *id)
            && store_of(venue, final(tx)) == store_of(venue, old(tx)).with_book(
            side,
            without(store_of(venue, old(tx)).book(side), *id),
        ),
{
    let ghost before = *tx;
    let r = match side {
        OrderSide::Bid => venue.bid_limit_order_repository().delete_by_order_id(tx, id),
        OrderSide::Ask => venue.ask_limit_order_repository().delete_by_order_id(tx, id),
    };
    proof {
        venue.lemma_repositories(before, *tx);
    }
    r
}

/// Lets `order` wait in the pool above the market, or in the one below it.
pub fn create_pending<V: Venue>(
    venue: &V,
    tx: &mut V::Transaction,
    above: bool,
    order: &PendingStopOrder<V::OrderId, V::Asset, V::Price, V::Quantity>,
) -> (r: Result<(), V::Err>)
    requires
        !holds(store_of(venue, old(tx)).pool(above), order.id()),
    ensures
        reliable(venue) ==> r is Ok,
        r is Ok ==> store_of(venue, final(tx)) == store_of(venue, old(tx)).with_pool(
            above,
            enqueued(above, store_of(venue, old(tx)).pool(above), *order),
        ),
{
    let ghost before = *tx;
    let r = if above {
        venue.high_pending_stop_order_repository().create(tx, order)
    } else {
        venue.low_pending_stop_order_repository().create(tx, order)
    };
    proof {
        venue.lemma_repositories(before, *tx);
    }
    r
}

/// Has the pool above the market, or the one below it, drop the order with the id of
/// `order`, and says whether there was one.
pub fn delete_pending<V: Venue>(
    venue: &V,
    tx: &mut V::Transaction,
    above: bool,
    order: &PendingStopOrder<V::OrderId, V::Asset, V::Price, V::Quantity>,
) -> (r: Result<bool, V::Err>)
    ensures
        reliable(venue) ==> r is Ok,
        r matches Ok(deleted) ==> deleted == holds(store_of(venue, old(tx)).pool(above), order.id())
            && store_of(venue, final(tx)) == store_of(venue, old(tx)).with_pool(
            above,
            without(store_of(venue, old(tx)).pool(above), order.id()),
        ),
{
    let ghost before = *tx;
    let r = if above {
        venue.high_pending_stop_order_repository().delete(tx, order)
    } else {
        venue.low_pending_stop_order_repository().delete(tx, order)
    };
    proof {
        venue.lemma_repositories(before, *tx);
    }
    r
}

/// Asks the pool above the market, or the one below it, for the first `limit` orders
/// that the market has reached at `market_price`.
pub fn reached_pending<V: Venue>(
    venue: &V,
    tx: &mut V::Transaction,
    above: bool,
    market_price: &V::Price,
    limit: i64,
) -> (r: Result<Vec<PendingStopOrder<V::OrderId, V::Asset, V::Price, V::Quantity>>, V::Err>)
    ensures
        reliable(venue) ==> r is Ok,
        r is Ok ==> store_of(venue, final(tx)) == store_of(venue, old(tx)),
        r matches Ok(list) ==> list@ == triggered(
            above,
            store_of(venue, old(tx)).pool(above),
            *market_price,
            limit as int,
        ),
{
    let ghost before = *tx;
    let r = if above {
        venue.high_pending_stop_order_repository().get_list_by_market_price(
            tx,
            market_price,
            limit,
        )
    } else {
        venue.low_pending_stop_order_repository().get_list_by_market_price(
            tx,
            market_price,
            limit,
        )
    };
    proof {
        venue.lemma_repositories(before, *tx);
    }
    r
}

/// Reads the price cell.
pub fn read_price<V: Venue>(venue: &V, tx: &mut V::Transaction) -> (r: Result<
    Option<V::Price>,
    V::Err,
>)
    ensures
        reliable(venue) ==> r is Ok,
        r is Ok ==> store_of(venue, final(tx)) == store_of(venue, old(tx)),
        r matches Ok(price) ==> price == store_of(venue, old(tx)).price,
{
    let ghost before = *tx;
    let r = venue.market_price_repository().get(tx);
    proof {
        venue.lemma_repositories(before, *tx);
    }
    r
}

/// Writes `price` to the price cell.
pub fn write_price<V: Venue>(venue: &V, tx: &mut V::Transaction, price: &V::Price) -> (r: Result<
    (),
    V::Err,
>)
    ensures
        reliable(venue) ==> r is Ok,
        r is Ok ==> store_of(venue, final(tx)) == (Store {
            price: Some(*price),
            ..store_of(venue, old(tx))
        }),
{
    let ghost before = *tx;
    let r = venue.market_price_repository().update(tx, price);
    proof {
        venue.lemma_repositories(before, *tx);
    }
    r
}

} // verus!
