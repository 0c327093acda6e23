use crate::matching_engine::output::{MatchingEngineEvent, MatchingEngineFailure};
use crate::model::asset::Asset;
use crate::model::asset_pair::AssetPair;
use crate::model::order::{LimitOrder, MarketOrder, StopLimitOrder, StopOrder};
use crate::model::order_id::OrderId;
use crate::model::order_request::{AmendOrderRequest, CancelOrderRequest, OrderRequest};
use crate::model::order_side::OrderSide;
use crate::model::order_type::OrderType;
use crate::model::price::Price;
use crate::model::quantity::Quantity;
use crate::model::total_order::{below, same, TotalOrder};
use crate::repository::limit_order::lowest_first;
use crate::repository::pending_stop_order::{reached, PendingStopOrder};
use crate::repository::queue::{distinct, enqueued, holds, lookup, ordered, replaced, without};
use vstd::prelude::*;

verus! {

/// One entry of the record that the engine keeps of a request: an event or a failure.
pub type Record<ID, P, Q> = Result<MatchingEngineEvent<ID, P, Q>, MatchingEngineFailure<ID>>;

/// What the storage holds, as plain values: the two books and the two pools as a
/// transaction sees them, and the price cell.
pub struct Store<ID: OrderId, A: Asset, P: Price, Q: Quantity> {
    /// The resting bids, highest price first.
    pub bids: Seq<LimitOrder<ID, A, P, Q>>,
    /// The resting asks, lowest price first.
    pub asks: Seq<LimitOrder<ID, A, P, Q>>,
    /// The pending stop orders above the market, lowest stop price first.
    pub high: Seq<PendingStopOrder<ID, A, P, Q>>,
    /// The pending stop orders below the market, highest stop price first.
    pub low: Seq<PendingStopOrder<ID, A, P, Q>>,
    /// The price in the cell.
    pub price: Option<P>,
}

impl<ID: OrderId, A: Asset, P: Price, Q: Quantity> Store<ID, A, P, Q> {
    /// The book of `side`.
    pub open spec fn book(self, side: OrderSide) -> Seq<LimitOrder<ID, A, P, Q>> {
        match side {
            OrderSide::Bid => self.bids,
            OrderSide::Ask => self.asks,
        }
    }

    /// The store with `orders` as the book of `side`.
    pub open spec fn with_book(self, side: OrderSide, orders: Seq<LimitOrder<ID, A, P, Q>>) -> Self {
        match side {
            OrderSide::Bid => Store { bids: orders, ..self },
            OrderSide::Ask => Store { asks: orders, ..self },
        }
    }

    /// The pool above the market, or the one below it.
    pub open spec fn pool(self, above: bool) -> Seq<PendingStopOrder<ID, A, P, Q>> {
        if above {
            self.high
        } else {
            self.low
        }
    }

    /// The store with `orders` as the pool above the market, or as the one below it.
    pub open spec fn with_pool(self, above: bool, orders: Seq<PendingStopOrder<ID, A, P, Q>>) -> Self {
        if above {
            Store { high: orders, ..self }
        } else {
            Store { low: orders, ..self }
        }
    }

    /// Every order rests in the book of its own side.
    pub open spec fn sided(self) -> bool {
        &&& forall|i: int| 0 <= i < self.bids.len() ==> (#[trigger] self.bids[i]).side == OrderSide::Bid
        &&& forall|i: int| 0 <= i < self.asks.len() ==> (#[trigger] self.asks[i]).side == OrderSide::Ask
    }

    /// In how many of the two books and the two pools an order with `id` is found.
    pub open spec fn places(self, id: ID) -> nat {
        (if holds(self.bids, id) {
            1nat
        } else {
            0nat
        }) + (if holds(self.asks, id) {
            1nat
        } else {
            0nat
        }) + (if holds(self.high, id) {
            1nat
        } else {
            0nat
        }) + (if holds(self.low, id) {
            1nat
        } else {
            0nat
        })
    }

    /// Each book and each pool is in its order, holds no id twice, and holds its own
    /// side only: the bids by falling price, the asks by rising price, the pool above
    /// the market by rising stop price, the pool below it by falling stop price.
    pub open spec fn queues_fine(self) -> bool {
        &&& ordered(false, self.bids)
        &&& ordered(true, self.asks)
        &&& ordered(true, self.high)
        &&& ordered(false, self.low)
        &&& distinct(self.bids)
        &&& distinct(self.asks)
        &&& distinct(self.high)
        &&& distinct(self.low)
        &&& self.sided()
    }

    /// No id is found in more than one of the books and pools.
    pub open spec fn unique(self) -> bool {
        forall|id: ID| #[trigger] self.places(id) <= 1
    }

    /// What holds of the storage between requests.
    pub open spec fn well_formed(self) -> bool {
        self.queues_fine() && self.unique()
    }

    /// The market at `price` has reached none of the stop orders that wait: those above
    /// the market have a stop price above `price`, those below it one below. Where no
    /// price is known, none waits.
    pub open spec fn calm(self, price: Option<P>) -> bool {
        match price {
            Some(p) => {
                &&& forall|i: int|
                    0 <= i < self.high.len() ==> below(p, (#[trigger] self.high[i]).stop_price())
                &&& forall|i: int|
                    0 <= i < self.low.len() ==> below((#[trigger] self.low[i]).stop_price(), p)
            },
            None => self.high.len() == 0 && self.low.len() == 0,
        }
    }

    /// A trade leaves every order in the book of its own side.
    pub proof fn lemma_traded_sided(self, side: OrderSide, quantity: Q)
        requires
            self.sided(),
            self.book(side).len() > 0,
        ensures
            self.with_book(side, self.book(side).drop_first()).sided(),
            self.with_book(side, self.book(side).update(0, self.book(side)[0].reduced(quantity))).sided(),
    {
        let book = self.book(side);
        let a = book.drop_first();
        let b = book.update(0, book[0].reduced(quantity));
        assert forall|i: int| 0 <= i < a.len() implies (#[trigger] a[i]).side == side by {
            assert(a[i] == book[i + 1]);
        }
        assert forall|i: int| 0 <= i < b.len() implies (#[trigger] b[i]).side == side by {
            assert(b[i].side == book[i].side);
        }
    }
}

/// All that the engine works on while it serves one request, as plain values: what the
/// storage holds, the output built so far, and the clock.
pub struct Machine<ID: OrderId, A: Asset, P: Price, Q: Quantity> {
    /// What the storage holds.
    pub store: Store<ID, A, P, Q>,
    /// The price of the last trade as the request knows it.
    pub market_price: Option<P>,
    /// What the request has reported so far.
    pub events: Seq<Record<ID, P, Q>>,
    /// What the clock reads at its first reading, at its second, and so on.
    pub timeline: spec_fn(nat) -> u64,
    /// How many readings of the clock have been taken.
    pub ticks: nat,
}

/// Whether the last traded price went from `before` to another one. Where one of the
/// two is not known it did not.
pub open spec fn moved<P: Price>(before: Option<P>, after: Option<P>) -> bool {
    before matches Some(was) && after matches Some(is_now) && !same(was, is_now)
}

/// Whether a limit order of `side` at `price` can trade with a resting order at `top`.
pub open spec fn overlaps<P: Price>(side: OrderSide, price: P, top: P) -> bool {
    match side {
        OrderSide::Bid => top.leq(price),
        OrderSide::Ask => price.leq(top),
    }
}

impl<ID: OrderId, A: Asset, P: Price, Q: Quantity> Machine<ID, A, P, Q> {
    /// The book of `side`.
    pub open spec fn book(self, side: OrderSide) -> Seq<LimitOrder<ID, A, P, Q>> {
        self.store.book(side)
    }

    /// The machine with `orders` as the book of `side`.
    pub open spec fn with_book(self, side: OrderSide, orders: Seq<LimitOrder<ID, A, P, Q>>) -> Self {
        Machine { store: self.store.with_book(side, orders), ..self }
    }

    /// The pool above the market, or the one below it.
    pub open spec fn pool(self, above: bool) -> Seq<PendingStopOrder<ID, A, P, Q>> {
        self.store.pool(above)
    }

    /// The machine with `orders` as the pool above the market, or as the one below it.
    pub open spec fn with_pool(self, above: bool, orders: Seq<PendingStopOrder<ID, A, P, Q>>) -> Self {
        Machine { store: self.store.with_pool(above, orders), ..self }
    }

    /// How many stop orders wait.
    pub open spec fn waiting(self) -> nat {
        self.store.high.len() + self.store.low.len()
    }

    /// What the clock reads next.
    pub open spec fn now(self) -> u64 {
        (self.timeline)(self.ticks)
    }

    /// The machine after a reading of the clock.
    pub open spec fn ticked(self) -> Self {
        Machine { ticks: self.ticks + 1, ..self }
    }

    /// The machine after it reported `record`.
    pub open spec fn emitted(self, record: Record<ID, P, Q>) -> Self {
        Machine { events: self.events.push(record), ..self }
    }

    /// The machine after a trade at `price`.
    pub open spec fn priced(self, price: P) -> Self {
        Machine { market_price: Some(price), ..self }
    }

    /// The machine after an order of `side` for `quantity` traded with the order that is
    /// first in the opposite book, at that order's price. Both sides report the trade,
    /// the incoming order first, with one reading of the clock. The smaller of the two
    /// orders is filled, and the resting one leaves the book if it is.
    pub open spec fn traded(self, id: ID, side: OrderSide, order_type: OrderType, quantity: Q) -> Self
        recommends
            self.book(side.opposite()).len() > 0,
    {
        let book = self.book(side.opposite());
        let top = book[0];
        let at = self.now();
        if below(top.quantity, quantity) {
            self.ticked().emitted(
                Ok(
                    MatchingEngineEvent::PartiallyFilled {
                        id,
                        side,
                        order_type,
                        price: top.price,
                        quantity: top.quantity,
                        timestamp_ms: at,
                    },
                ),
            ).emitted(
                Ok(
                    MatchingEngineEvent::Filled {
                        id: top.id,
                        side: top.side,
                        order_type: OrderType::Limit,
                        price: top.price,
                        quantity: top.quantity,
                        timestamp_ms: at,
                    },
                ),
            ).priced(top.price).with_book(side.opposite(), book.drop_first())
        } else if below(quantity, top.quantity) {
            self.ticked().emitted(
                Ok(
                    MatchingEngineEvent::Filled {
                        id,
                        side,
                        order_type,
                        price: top.price,
                        quantity,
                        timestamp_ms: at,
                    },
                ),
            ).emitted(
                Ok(
                    MatchingEngineEvent::PartiallyFilled {
                        id: top.id,
                        side: top.side,
                        order_type: OrderType::Limit,
                        price: top.price,
                        quantity,
                        timestamp_ms: at,
                    },
                ),
            ).priced(top.price).with_book(side.opposite(), book.update(0, top.reduced(quantity)))
        } else {
            self.ticked().emitted(
                Ok(
                    MatchingEngineEvent::Filled {
                        id,
                        side,
                        order_type,
                        price: top.price,
                        quantity,
                        timestamp_ms: at,
                    },
                ),
            ).emitted(
                Ok(
                    MatchingEngineEvent::Filled {
                        id: top.id,
                        side: top.side,
                        order_type: OrderType::Limit,
                        price: top.price,
                        quantity: top.quantity,
                        timestamp_ms: at,
                    },
                ),
            ).priced(top.price).with_book(side.opposite(), book.drop_first())
        }
    }

    /// Whether the order that is first in the book opposite to `side` fills an order
    /// for `quantity`.
    pub open spec fn fills(self, side: OrderSide, quantity: Q) -> bool
        recommends
            self.book(side.opposite()).len() > 0,
    {
        !below(self.book(side.opposite())[0].quantity, quantity)
    }

    /// The machine after `order` took from the opposite book what it could: it trades
    /// with the first order there, then with the next, until it is filled or the book
    /// is empty, which it reports.
    pub open spec fn market_matched(self, order: MarketOrder<ID, A, Q>) -> Self
        decreases self.book(order.side.opposite()).len(),
    {
        let book = self.book(order.side.opposite());
        if book.len() == 0 {
            self.emitted(Err(MatchingEngineFailure::NoMatch(order.id)))
        } else {
            let after = self.traded(order.id, order.side, OrderType::Market, order.quantity);
            if self.fills(order.side, order.quantity) {
                after
            } else {
                after.market_matched(order.reduced(book[0].quantity))
            }
        }
    }

    /// The machine after `order` joined the book of its side.
    pub open spec fn rested(self, order: LimitOrder<ID, A, P, Q>) -> Self {
        self.with_book(
            order.side,
            enqueued(lowest_first(order.side), self.book(order.side), order),
        )
    }

    /// Whether `order` can trade with the first order of the opposite book.
    pub open spec fn crosses(self, order: LimitOrder<ID, A, P, Q>) -> bool {
        let book = self.book(order.side.opposite());
        book.len() > 0 && overlaps(order.side, order.price, book[0].price)
    }

    /// The machine after `order` traded with the opposite book as far as the prices
    /// overlap, and what was left of it came to rest.
    pub open spec fn limit_matched(self, order: LimitOrder<ID, A, P, Q>) -> Self
        decreases self.book(order.side.opposite()).len(),
    {
        let book = self.book(order.side.opposite());
        if !self.crosses(order) {
            self.rested(order)
        } else {
            let after = self.traded(order.id, order.side, OrderType::Limit, order.quantity);
            if self.fills(order.side, order.quantity) {
                after
            } else {
                after.limit_matched(order.reduced(book[0].quantity))
            }
        }
    }

    /// The machine after a request to change the price and the quantity of a resting
    /// limit order. The order is not matched again. A request that aims at another kind
    /// of order does nothing.
    pub open spec fn amended(self, request: AmendOrderRequest<ID, A, P, Q>) -> Self {
        let book = self.book(request.side);
        if request.target_order_type != OrderType::Limit {
            self
        } else {
            match lookup(book, request.target_id) {
                Some(target) => {
                    let at = self.now();
                    let changed = LimitOrder {
                        price: request.price,
                        quantity: request.quantity,
                        timestamp_ms: at,
                        ..target
                    };
                    self.ticked().with_book(
                        request.side,
                        replaced(lowest_first(request.side), book, changed),
                    ).emitted(
                        Ok(
                            MatchingEngineEvent::Amended {
                                id: request.id,
                                target_id: request.target_id,
                                price: request.price,
                                quantity: request.quantity,
                                timestamp_ms: at,
                            },
                        ),
                    )
                },
                None => self.emitted(
                    Err(
                        MatchingEngineFailure::OrderNotFound {
                            order_id: request.id,
                            target_order_id: request.target_id,
                        },
                    ),
                ),
            }
        }
    }

    /// The machine after a request to take a resting limit order out of its book. A
    /// request that aims at another kind of order does nothing.
    pub open spec fn cancelled(self, request: CancelOrderRequest<ID, A>) -> Self {
        let book = self.book(request.side);
        if request.target_order_type != OrderType::Limit {
            self
        } else if holds(book, request.target_id) {
            self.with_book(request.side, without(book, request.target_id)).ticked().emitted(
                Ok(
                    MatchingEngineEvent::Cancelled {
                        id: request.id,
                        target_id: request.target_id,
                        timestamp_ms: self.now(),
                    },
                ),
            )
        } else {
            self.emitted(
                Err(
                    MatchingEngineFailure::OrderNotFound {
                        order_id: request.id,
                        target_order_id: request.target_id,
                    },
                ),
            )
        }
    }

    /// The machine after the stop order `order` was taken in. Without a market price it
    /// is turned away. With a stop price below the market it waits in the pool below,
    /// with one above in the pool above. With a stop price at the market it becomes a
    /// market order at once.
    pub open spec fn stop_placed(self, order: StopOrder<ID, A, P, Q>) -> Self {
        match self.market_price {
            None => self.emitted(Err(MatchingEngineFailure::MissingMarketPriceForStopOrder(order.id))),
            Some(market_price) => {
                if below(order.stop_price, market_price) {
                    self.with_pool(
                        false,
                        enqueued(false, self.store.low, PendingStopOrder::StopOrder(order)),
                    )
                } else if below(market_price, order.stop_price) {
                    self.with_pool(
                        true,
                        enqueued(true, self.store.high, PendingStopOrder::StopOrder(order)),
                    )
                } else {
                    self.issued_market(order)
                }
            },
        }
    }

    /// The machine after the stop order `order` became a market order and was matched.
    pub open spec fn issued_market(self, order: StopOrder<ID, A, P, Q>) -> Self {
        let at = self.now();
        self.ticked().emitted(
            Ok(MatchingEngineEvent::StopOrderIssueMarketOrder { id: order.id, timestamp_ms: at }),
        ).market_matched(order.issued(at))
    }

    /// The machine after the stop-limit order `order` was taken in, as `stop_placed`
    /// does it for a stop order; at the market it becomes a limit order at once.
    pub open spec fn stop_limit_placed(self, order: StopLimitOrder<ID, A, P, Q>) -> Self {
        match self.market_price {
            None => self.emitted(Err(MatchingEngineFailure::MissingMarketPriceForStopOrder(order.id))),
            Some(market_price) => {
                if below(order.stop_price, market_price) {
                    self.with_pool(
                        false,
                        enqueued(false, self.store.low, PendingStopOrder::StopLimitOrder(order)),
                    )
                } else if below(market_price, order.stop_price) {
                    self.with_pool(
                        true,
                        enqueued(true, self.store.high, PendingStopOrder::StopLimitOrder(order)),
                    )
                } else {
                    self.issued_limit(order)
                }
            },
        }
    }

    /// The machine after the stop-limit order `order` became a limit order and was
    /// matched.
    pub open spec fn issued_limit(self, order: StopLimitOrder<ID, A, P, Q>) -> Self {
        let at = self.now();
        self.ticked().emitted(
            Ok(
                MatchingEngineEvent::StopLimitOrderIssueLimitOrder {
                    id: order.id,
                    timestamp_ms: at,
                },
            ),
        ).limit_matched(order.issued(at))
    }

    /// The machine after the first order of a pool was triggered: the order that it
    /// becomes is matched, and then it leaves the pool.
    pub open spec fn fired_first(self, above: bool) -> Self
        recommends
            self.pool(above).len() > 0,
    {
        let after = match self.pool(above)[0] {
            PendingStopOrder::StopOrder(order) => self.issued_market(order),
            PendingStopOrder::StopLimitOrder(order) => self.issued_limit(order),
        };
        after.with_pool(above, self.pool(above).drop_first())
    }

    /// The machine after every order of a pool that the market has reached at `mark`
    /// was triggered, in the order of the pool.
    pub open spec fn fired(self, mark: P, above: bool) -> Self
        decreases self.pool(above).len(),
    {
        if reached(above, self.pool(above), mark) > 0 {
            self.fired_first(above).fired(mark, above)
        } else {
            self
        }
    }

    /// The machine after the stop orders were looked after, the last traded price having
    /// been `before` when they were last in order. Where the price has gone up since,
    /// the pool above the market is triggered at the new price, where it has gone down,
    /// the pool below. The orders that this issues may move the price again: as long as
    /// a look triggered an order, there is another look.
    pub open spec fn settled(self, before: Option<P>) -> Self
        decreases self.waiting(),
    {
        if moved(before, self.market_price) {
            let mark = self.market_price->0;
            let after = self.fired(mark, below(before->0, mark));
            if after.waiting() < self.waiting() {
                after.settled(Some(mark))
            } else {
                after
            }
        } else {
            self
        }
    }

    /// The machine after the last traded price was written to the cell, which is done
    /// where it is known and is not the `initial` one.
    pub open spec fn saved(self, initial: Option<P>) -> Self {
        match self.market_price {
            Some(latest) => {
                if initial matches Some(first) && same(first, latest) {
                    self
                } else {
                    Machine { store: Store { price: Some(latest), ..self.store }, ..self }
                }
            },
            None => self,
        }
    }

    /// The machine at the start of a request: nothing reported yet, and as last traded
    /// price the one that the caller gave or, where it gave none, the one in the cell.
    pub open spec fn started(self, market_price: Option<P>) -> Self {
        Machine {
            market_price: if market_price is Some {
                market_price
            } else {
                self.store.price
            },
            events: Seq::empty(),
            ..self
        }
    }

    /// The machine after `request` was accepted and dealt with, before the stop orders
    /// are looked after.
    pub open spec fn dispatched(self, request: OrderRequest<ID, A, P, Q>) -> Self {
        let at = self.now();
        match request {
            OrderRequest::Market(r) => self.ticked().emitted(
                Ok(
                    MatchingEngineEvent::Accepted {
                        id: r.id,
                        order_type: OrderType::Market,
                        timestamp_ms: at,
                    },
                ),
            ).market_matched(
                MarketOrder {
                    id: r.id,
                    asset_pair: r.asset_pair,
                    side: r.side,
                    quantity: r.quantity,
                    timestamp_ms: at,
                },
            ),
            OrderRequest::Limit(r) => self.ticked().emitted(
                Ok(
                    MatchingEngineEvent::Accepted {
                        id: r.id,
                        order_type: OrderType::Limit,
                        timestamp_ms: at,
                    },
                ),
            ).limit_matched(
                LimitOrder {
                    id: r.id,
                    asset_pair: r.asset_pair,
                    side: r.side,
                    time_in_force: r.time_in_force,
                    price: r.price,
                    quantity: r.quantity,
                    timestamp_ms: at,
                },
            ),
            OrderRequest::Stop(r) => self.ticked().emitted(
                Ok(
                    MatchingEngineEvent::Accepted {
                        id: r.id,
                        order_type: OrderType::Stop,
                        timestamp_ms: at,
                    },
                ),
            ).stop_placed(
                StopOrder {
                    id: r.id,
                    asset_pair: r.asset_pair,
                    side: r.side,
                    stop_price: r.stop_price,
                    quantity: r.quantity,
                    timestamp_ms: at,
                },
            ),
            OrderRequest::StopLimit(r) => self.ticked().emitted(
                Ok(
                    MatchingEngineEvent::Accepted {
                        id: r.id,
                        order_type: OrderType::StopLimit,
                        timestamp_ms: at,
                    },
                ),
            ).stop_limit_placed(
                StopLimitOrder {
                    id: r.id,
                    asset_pair: r.asset_pair,
                    side: r.side,
                    stop_price: r.stop_price,
                    time_in_force: r.time_in_force,
                    price: r.price,
                    quantity: r.quantity,
                    timestamp_ms: at,
                },
            ),
            OrderRequest::Amend(r) => self.amended(r),
            OrderRequest::Cancel(r) => self.cancelled(r),
        }
    }

    /// The machine after a whole request: it is dealt with, the stop orders that the
    /// trades have reached are triggered, and the last traded price is written down
    /// if it is a new one.
    pub open spec fn processed(self, market_price: Option<P>, request: OrderRequest<ID, A, P, Q>) -> Self {
        let start = self.started(market_price);
        start.dispatched(request).settled(start.market_price).saved(start.market_price)
    }
}

/// Whether the engine may be asked `request` where it trades `pair` and the storage
/// holds `store`: an order names the pair of the engine and brings an id that is found
/// nowhere; a change or a cancellation does not aim at a market order, which never
/// rests.
pub open spec fn acceptable<ID: OrderId, A: Asset, P: Price, Q: Quantity>(
    pair: AssetPair<A>,
    store: Store<ID, A, P, Q>,
    request: OrderRequest<ID, A, P, Q>,
) -> bool {
    match request {
        OrderRequest::Market(r) => r.asset_pair == pair && store.places(r.id) == 0,
        OrderRequest::Limit(r) => r.asset_pair == pair && store.places(r.id) == 0,
        OrderRequest::Stop(r) => r.asset_pair == pair && store.places(r.id) == 0,
        OrderRequest::StopLimit(r) => r.asset_pair == pair && store.places(r.id) == 0,
        OrderRequest::Amend(r) => r.target_order_type != OrderType::Market,
        OrderRequest::Cancel(r) => r.target_order_type != OrderType::Market,
    }
}

/// The price that `price` refers to, if it refers to one.
pub open spec fn copied<P>(price: Option<&P>) -> Option<P> {
    match price {
        Some(p) => Some(*p),
        None => None,
    }
}

} // verus!
