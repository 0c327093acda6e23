use crate::matching_engine::machine::{moved, Machine, Record};
use crate::matching_engine::output::{MatchingEngineEvent, MatchingEngineFailure};
use crate::model::asset::Asset;
use crate::model::order::{LimitOrder, MarketOrder, StopLimitOrder, StopOrder};
use crate::model::order_id::OrderId;
use crate::model::order_request::{AmendOrderRequest, CancelOrderRequest, OrderRequest};
use crate::model::order_side::OrderSide;
use crate::model::order_type::OrderType;
use crate::model::price::Price;
use crate::model::quantity::Quantity;
use crate::model::total_order::{
    below, lemma_below_transitive, lemma_same_reflexive, lemma_trichotomy, same, TotalOrder,
};
use crate::matching_engine::machine::{overlaps, Store};
use crate::repository::limit_order::lowest_first;
use crate::repository::pending_stop_order::{reached, PendingStopOrder};
use crate::repository::queue::{
    ahead, enqueued, holds, index_of, lemma_drop_first_keeps, lemma_enqueued_entry,
    lemma_enqueued_holds, lemma_enqueued_without, lemma_first_come_first_served,
    lemma_not_ahead_transitive, lemma_slot, lemma_slot_splits, ordered,
};
use vstd::prelude::*;

verus! {

/// Whether `record` reports that an order was filled, wholly or in part.
pub open spec fn is_fill<ID: OrderId, P: Price, Q: Quantity>(record: Record<ID, P, Q>) -> bool {
    record matches Ok(event) && (event is Filled || event is PartiallyFilled)
}

/// The price at which the fill that `record` reports was made.
pub open spec fn fill_price<ID: OrderId, P: Price, Q: Quantity>(record: Record<ID, P, Q>) -> P {
    match record {
        Ok(MatchingEngineEvent::Filled { price, .. }) => price,
        Ok(MatchingEngineEvent::PartiallyFilled { price, .. }) => price,
        _ => arbitrary(),
    }
}

/// The quantity of the fill that `record` reports.
pub open spec fn fill_quantity<ID: OrderId, P: Price, Q: Quantity>(record: Record<ID, P, Q>) -> Q {
    match record {
        Ok(MatchingEngineEvent::Filled { quantity, .. }) => quantity,
        Ok(MatchingEngineEvent::PartiallyFilled { quantity, .. }) => quantity,
        _ => arbitrary(),
    }
}

/// The time of the fill that `record` reports.
pub open spec fn fill_time<ID: OrderId, P: Price, Q: Quantity>(record: Record<ID, P, Q>) -> u64 {
    match record {
        Ok(MatchingEngineEvent::Filled { timestamp_ms, .. }) => timestamp_ms,
        Ok(MatchingEngineEvent::PartiallyFilled { timestamp_ms, .. }) => timestamp_ms,
        _ => arbitrary(),
    }
}

/// Two fills are the two sides of one trade: the same price, quantities that are
/// equal, the same time.
pub open spec fn one_trade<ID: OrderId, P: Price, Q: Quantity>(
    taker: Record<ID, P, Q>,
    maker: Record<ID, P, Q>,
) -> bool {
    &&& is_fill(taker)
    &&& is_fill(maker)
    &&& fill_price(taker) == fill_price(maker)
    &&& same(fill_quantity(taker), fill_quantity(maker))
    &&& fill_time(taker) == fill_time(maker)
}

/// The fills among `events` come two by two, side by side, and each two are the two
/// sides of one trade.
pub open spec fn paired<ID: OrderId, P: Price, Q: Quantity>(events: Seq<Record<ID, P, Q>>) -> bool
    decreases events.len(),
{
    if events.len() == 0 {
        true
    } else if !is_fill(events.last()) {
        paired(events.drop_last())
    } else {
        &&& events.len() >= 2
        &&& one_trade(events[events.len() - 2], events.last())
        &&& paired(events.subrange(0, events.len() - 2))
    }
}

/// The price of the last trade that `events` report, if they report one.
pub open spec fn last_trade_price<ID: OrderId, P: Price, Q: Quantity>(
    events: Seq<Record<ID, P, Q>>,
) -> Option<P>
    decreases events.len(),
{
    if events.len() == 0 {
        None
    } else if is_fill(events.last()) {
        Some(fill_price(events.last()))
    } else {
        last_trade_price(events.drop_last())
    }
}

/// What holds of the output of a request that began with `initial` as last traded
/// price: its fills are paired, and its last traded price is that of the last trade it
/// reports or, where it reports none, the initial one.
pub open spec fn well_reported<ID: OrderId, A: Asset, P: Price, Q: Quantity>(
    m: Machine<ID, A, P, Q>,
    initial: Option<P>,
) -> bool {
    &&& paired(m.events)
    &&& m.market_price == if last_trade_price(m.events) is Some {
        last_trade_price(m.events)
    } else {
        initial
    }
}

impl<ID: OrderId, A: Asset, P: Price, Q: Quantity> Machine<ID, A, P, Q> {
    /// Reporting something that is no fill leaves the output well reported.
    pub proof fn lemma_emitted_reported(self, record: Record<ID, P, Q>, initial: Option<P>)
        requires
            well_reported(self, initial),
            !is_fill(record),
        ensures
            well_reported(self.emitted(record), initial),
    {
        assert(self.events.push(record).drop_last() =~= self.events);
    }

    /// A trade is reported by two fills that are its two sides, and its price is the
    /// last traded price.
    pub proof fn lemma_traded_reported(
        self,
        id: ID,
        side: OrderSide,
        order_type: OrderType,
        quantity: Q,
        initial: Option<P>,
    )
        requires
            well_reported(self, initial),
            self.book(side.opposite()).len() > 0,
        ensures
            well_reported(self.traded(id, side, order_type, quantity), initial),
            self.traded(id, side, order_type, quantity).events.len() == self.events.len() + 2,
            self.traded(id, side, order_type, quantity).events.subrange(
                0,
                self.events.len() as int,
            ) == self.events,
            one_trade(
                self.traded(id, side, order_type, quantity).events[self.events.len() as int],
                self.traded(id, side, order_type, quantity).events[self.events.len() as int + 1],
            ),
            fill_price(self.traded(id, side, order_type, quantity).events[self.events.len() as int])
                == self.book(side.opposite())[0].price,
    {
        let top = self.book(side.opposite())[0];
        let after = self.traded(id, side, order_type, quantity);
        lemma_trichotomy(quantity, top.quantity);
        lemma_same_reflexive(quantity);
        lemma_same_reflexive(top.quantity);
        assert(after.events.subrange(0, after.events.len() - 2) =~= self.events);
    }

    /// A market order that has been matched leaves the output well reported.
    pub proof fn lemma_market_matched_reported(
        self,
        order: MarketOrder<ID, A, Q>,
        initial: Option<P>,
    )
        requires
            well_reported(self, initial),
        ensures
            well_reported(self.market_matched(order), initial),
        decreases self.book(order.side.opposite()).len(),
    {
        let book = self.book(order.side.opposite());
        if book.len() == 0 {
            self.lemma_emitted_reported(Err(MatchingEngineFailure::NoMatch(order.id)), initial);
        } else {
            let after = self.traded(order.id, order.side, OrderType::Market, order.quantity);
            self.lemma_traded_reported(
                order.id,
                order.side,
                OrderType::Market,
                order.quantity,
                initial,
            );
            if !self.fills(order.side, order.quantity) {
                after.lemma_market_matched_reported(order.reduced(book[0].quantity), initial);
            }
        }
    }

    /// A limit order that has been matched leaves the output well reported.
    pub proof fn lemma_limit_matched_reported(
        self,
        order: LimitOrder<ID, A, P, Q>,
        initial: Option<P>,
    )
        requires
            well_reported(self, initial),
        ensures
            well_reported(self.limit_matched(order), initial),
        decreases self.book(order.side.opposite()).len(),
    {
        let book = self.book(order.side.opposite());
        if self.crosses(order) {
            let after = self.traded(order.id, order.side, OrderType::Limit, order.quantity);
            self.lemma_traded_reported(
                order.id,
                order.side,
                OrderType::Limit,
                order.quantity,
                initial,
            );
            if !self.fills(order.side, order.quantity) {
                after.lemma_limit_matched_reported(order.reduced(book[0].quantity), initial);
            }
        }
    }

    /// A stop order that became a market order leaves the output well reported.
    pub proof fn lemma_issued_market_reported(
        self,
        order: StopOrder<ID, A, P, Q>,
        initial: Option<P>,
    )
        requires
            well_reported(self, initial),
        ensures
            well_reported(self.issued_market(order), initial),
    {
        let at = self.now();
        let record = Ok(
            MatchingEngineEvent::StopOrderIssueMarketOrder { id: order.id, timestamp_ms: at },
        );
        self.ticked().lemma_emitted_reported(record, initial);
        self.ticked().emitted(record).lemma_market_matched_reported(order.issued(at), initial);
    }

    /// A stop-limit order that became a limit order leaves the output well reported.
    pub proof fn lemma_issued_limit_reported(
        self,
        order: StopLimitOrder<ID, A, P, Q>,
        initial: Option<P>,
    )
        requires
            well_reported(self, initial),
        ensures
            well_reported(self.issued_limit(order), initial),
    {
        let at = self.now();
        let record = Ok(
            MatchingEngineEvent::StopLimitOrderIssueLimitOrder { id: order.id, timestamp_ms: at },
        );
        self.ticked().lemma_emitted_reported(record, initial);
        self.ticked().emitted(record).lemma_limit_matched_reported(order.issued(at), initial);
    }

    /// Triggering the first order of a pool leaves the output well reported.
    pub proof fn lemma_fired_first_reported(self, above: bool, initial: Option<P>)
        requires
            well_reported(self, initial),
        ensures
            well_reported(self.fired_first(above), initial),
    {
        match self.pool(above)[0] {
            PendingStopOrder::StopOrder(order) => {
                self.lemma_issued_market_reported(order, initial);
            },
            PendingStopOrder::StopLimitOrder(order) => {
                self.lemma_issued_limit_reported(order, initial);
            },
        }
    }

    /// Triggering what the market has reached leaves the output well reported.
    pub proof fn lemma_fired_reported(self, mark: P, above: bool, initial: Option<P>)
        requires
            well_reported(self, initial),
        ensures
            well_reported(self.fired(mark, above), initial),
        decreases self.pool(above).len(),
    {
        if reached(above, self.pool(above), mark) > 0 {
            self.lemma_fired_first_reported(above, initial);
            self.fired_first(above).lemma_fired_reported(mark, above, initial);
        }
    }

    /// Looking after the stop orders leaves the output well reported.
    pub proof fn lemma_settled_reported(self, before: Option<P>, initial: Option<P>)
        requires
            well_reported(self, initial),
        ensures
            well_reported(self.settled(before), initial),
        decreases self.waiting(),
    {
        if moved(before, self.market_price) {
            let mark = self.market_price->0;
            let after = self.fired(mark, below(before->0, mark));
            self.lemma_fired_reported(mark, below(before->0, mark), initial);
            if after.waiting() < self.waiting() {
                after.lemma_settled_reported(Some(mark), initial);
            }
        }
    }

    /// A request that has been accepted and dealt with leaves the output well reported.
    pub proof fn lemma_dispatched_reported(
        self,
        request: OrderRequest<ID, A, P, Q>,
        initial: Option<P>,
    )
        requires
            well_reported(self, initial),
        ensures
            well_reported(self.dispatched(request), initial),
    {
        let at = self.now();
        match request {
            OrderRequest::Market(r) => {
                let record = Ok(
                    MatchingEngineEvent::Accepted {
                        id: r.id,
                        order_type: OrderType::Market,
                        timestamp_ms: at,
                    },
                );
                self.ticked().lemma_emitted_reported(record, initial);
                self.ticked().emitted(record).lemma_market_matched_reported(
                    MarketOrder {
                        id: r.id,
                        asset_pair: r.asset_pair,
                        side: r.side,
                        quantity: r.quantity,
                        timestamp_ms: at,
                    },
                    initial,
                );
            },
            OrderRequest::Limit(r) => {
                let record = Ok(
                    MatchingEngineEvent::Accepted {
                        id: r.id,
                        order_type: OrderType::Limit,
                        timestamp_ms: at,
                    },
                );
                self.ticked().lemma_emitted_reported(record, initial);
                self.ticked().emitted(record).lemma_limit_matched_reported(
                    LimitOrder {
                        id: r.id,
                        asset_pair: r.asset_pair,
                        side: r.side,
                        time_in_force: r.time_in_force,
                        price: r.price,
                        quantity: r.quantity,
                        timestamp_ms: at,
                    },
                    initial,
                );
            },
            OrderRequest::Stop(r) => {
                let record = Ok(
                    MatchingEngineEvent::Accepted {
                        id: r.id,
                        order_type: OrderType::Stop,
                        timestamp_ms: at,
                    },
                );
                self.ticked().lemma_emitted_reported(record, initial);
                let start = self.ticked().emitted(record);
                let order = StopOrder {
                    id: r.id,
                    asset_pair: r.asset_pair,
                    side: r.side,
                    stop_price: r.stop_price,
                    quantity: r.quantity,
                    timestamp_ms: at,
                };
                start.lemma_emitted_reported(
                    Err(MatchingEngineFailure::MissingMarketPriceForStopOrder(order.id)),
                    initial,
                );
                start.lemma_issued_market_reported(order, initial);
            },
            OrderRequest::StopLimit(r) => {
                let record = Ok(
                    MatchingEngineEvent::Accepted {
                        id: r.id,
                        order_type: OrderType::StopLimit,
                        timestamp_ms: at,
                    },
                );
                self.ticked().lemma_emitted_reported(record, initial);
                let start = self.ticked().emitted(record);
                let order = StopLimitOrder {
                    id: r.id,
                    asset_pair: r.asset_pair,
                    side: r.side,
                    stop_price: r.stop_price,
                    time_in_force: r.time_in_force,
                    price: r.price,
                    quantity: r.quantity,
                    timestamp_ms: at,
                };
                start.lemma_emitted_reported(
                    Err(MatchingEngineFailure::MissingMarketPriceForStopOrder(order.id)),
                    initial,
                );
                start.lemma_issued_limit_reported(order, initial);
            },
            OrderRequest::Amend(r) => {
                self.lemma_amended_reported(r, initial);
            },
            OrderRequest::Cancel(r) => {
                self.lemma_cancelled_reported(r, initial);
            },
        }
    }

    /// An amended order leaves the output well reported.
    pub proof fn lemma_amended_reported(
        self,
        request: AmendOrderRequest<ID, A, P, Q>,
        initial: Option<P>,
    )
        requires
            well_reported(self, initial),
        ensures
            well_reported(self.amended(request), initial),
    {
        let after = self.amended(request);
        if after.events.len() > self.events.len() {
            assert(after.events.drop_last() =~= self.events);
        }
    }

    /// A cancelled order leaves the output well reported.
    pub proof fn lemma_cancelled_reported(
        self,
        request: CancelOrderRequest<ID, A>,
        initial: Option<P>,
    )
        requires
            well_reported(self, initial),
        ensures
            well_reported(self.cancelled(request), initial),
    {
        let after = self.cancelled(request);
        if after.events.len() > self.events.len() {
            assert(after.events.drop_last() =~= self.events);
        }
    }

    /// Of every trade that a request makes, both sides are reported, side by side, with
    /// the same price, with quantities that are equal, and with the same time. The last
    /// traded price that the request hands back is the price of the last trade that it
    /// reports; where it reports none, it is the price that the request began with.
    pub proof fn lemma_processed_reported(
        self,
        market_price: Option<P>,
        request: OrderRequest<ID, A, P, Q>,
    )
        ensures
            paired(self.processed(market_price, request).events),
            self.processed(market_price, request).market_price == if last_trade_price(
                self.processed(market_price, request).events,
            ) is Some {
                last_trade_price(self.processed(market_price, request).events)
            } else {
                self.started(market_price).market_price
            },
    {
        let start = self.started(market_price);
        let initial = start.market_price;
        start.lemma_dispatched_reported(request, initial);
        start.dispatched(request).lemma_settled_reported(initial, initial);
    }
}

/// From the index `from` on, the fills among `events` were made at prices in the
/// order in which a book serves them: lowest first, or highest first.
pub open spec fn in_book_order<ID: OrderId, P: Price, Q: Quantity>(
    lowest_first: bool,
    events: Seq<Record<ID, P, Q>>,
    from: int,
) -> bool {
    forall|i: int, j: int|
        #![trigger events[i], events[j]]
        from <= i < j < events.len() && is_fill(events[i]) && is_fill(events[j]) ==> !ahead(
            lowest_first,
            fill_price(events[j]),
            fill_price(events[i]),
        )
}

/// From the index `from` on, no fill among `events` was made at a price that goes
/// ahead of `best`.
pub open spec fn none_ahead_of<ID: OrderId, P: Price, Q: Quantity>(
    lowest_first: bool,
    events: Seq<Record<ID, P, Q>>,
    from: int,
    best: P,
) -> bool {
    forall|i: int|
        from <= i < events.len() && is_fill(#[trigger] events[i]) ==> !ahead(
            lowest_first,
            fill_price(events[i]),
            best,
        )
}

/// `after` is `before` and what was reported since.
pub open spec fn grown_from<T>(before: Seq<T>, after: Seq<T>) -> bool {
    before.len() <= after.len() && after.subrange(0, before.len() as int) == before
}

impl<ID: OrderId, A: Asset, P: Price, Q: Quantity> Machine<ID, A, P, Q> {
    /// The trades that one market order makes follow the order of the book that it
    /// takes from: against the asks no trade is made at a lower price than the one
    /// before it, against the bids none at a higher price.
    pub proof fn lemma_market_matched_in_book_order(self, order: MarketOrder<ID, A, Q>)
        requires
            ordered(
                lowest_first(order.side.opposite()),
                self.book(order.side.opposite()),
            ),
        ensures
            grown_from(self.events, self.market_matched(order).events),
            in_book_order(
                lowest_first(order.side.opposite()),
                self.market_matched(order).events,
                self.events.len() as int,
            ),
            self.book(order.side.opposite()).len() > 0 ==> none_ahead_of(
                lowest_first(order.side.opposite()),
                self.market_matched(order).events,
                self.events.len() as int,
                self.book(order.side.opposite())[0].price,
            ),
        decreases self.book(order.side.opposite()).len(),
    {
        let book = self.book(order.side.opposite());
        let lowest = lowest_first(order.side.opposite());
        let n = self.events.len() as int;
        let done = self.market_matched(order);
        if book.len() == 0 {
            assert(done.events.subrange(0, n) =~= self.events);
        } else {
            let after = self.traded(order.id, order.side, OrderType::Market, order.quantity);
            self.lemma_traded_step(order.id, order.side, OrderType::Market, order.quantity);
            if !self.fills(order.side, order.quantity) {
                let rest = order.reduced(book[0].quantity);
                lemma_drop_first_keeps(lowest, book);
                after.lemma_market_matched_in_book_order(rest);
                self.lemma_run_in_book_order(
                    order.side,
                    after,
                    after.market_matched(rest).events,
                );
            }
        }
    }

    /// The trades that one limit order makes follow the order of the book that it
    /// takes from: against the asks no trade is made at a lower price than the one
    /// before it, against the bids none at a higher price.
    pub proof fn lemma_limit_matched_in_book_order(self, order: LimitOrder<ID, A, P, Q>)
        requires
            ordered(
                lowest_first(order.side.opposite()),
                self.book(order.side.opposite()),
            ),
        ensures
            grown_from(self.events, self.limit_matched(order).events),
            in_book_order(
                lowest_first(order.side.opposite()),
                self.limit_matched(order).events,
                self.events.len() as int,
            ),
            self.book(order.side.opposite()).len() > 0 ==> none_ahead_of(
                lowest_first(order.side.opposite()),
                self.limit_matched(order).events,
                self.events.len() as int,
                self.book(order.side.opposite())[0].price,
            ),
        decreases self.book(order.side.opposite()).len(),
    {
        let book = self.book(order.side.opposite());
        let lowest = lowest_first(order.side.opposite());
        let n = self.events.len() as int;
        let done = self.limit_matched(order);
        if !self.crosses(order) {
            assert(done.events.subrange(0, n) =~= self.events);
        } else {
            let after = self.traded(order.id, order.side, OrderType::Limit, order.quantity);
            self.lemma_traded_step(order.id, order.side, OrderType::Limit, order.quantity);
            if !self.fills(order.side, order.quantity) {
                let rest = order.reduced(book[0].quantity);
                lemma_drop_first_keeps(lowest, book);
                after.lemma_limit_matched_in_book_order(rest);
                self.lemma_run_in_book_order(
                    order.side,
                    after,
                    after.limit_matched(rest).events,
                );
            }
        }
    }

    /// One trade reports two fills at the price of the first order of the book.
    proof fn lemma_traded_step(self, id: ID, side: OrderSide, order_type: OrderType, quantity: Q)
        requires
            self.book(side.opposite()).len() > 0,
        ensures
            ({
                let after = self.traded(id, side, order_type, quantity);
                let n = self.events.len() as int;
                let best = self.book(side.opposite())[0].price;
                &&& after.events.len() == n + 2
                &&& grown_from(self.events, after.events)
                &&& is_fill(after.events[n]) && fill_price(after.events[n]) == best
                &&& is_fill(after.events[n + 1]) && fill_price(after.events[n + 1]) == best
                &&& in_book_order(lowest_first(side.opposite()), after.events, n)
                &&& none_ahead_of(lowest_first(side.opposite()), after.events, n, best)
            }),
    {
        let after = self.traded(id, side, order_type, quantity);
        let n = self.events.len() as int;
        let best = self.book(side.opposite())[0].price;
        lemma_same_reflexive(best);
        assert(after.events.subrange(0, n) =~= self.events);
    }

    /// A run of trades that goes on after a first trade follows the order of the book
    /// if what comes after the first trade does.
    proof fn lemma_run_in_book_order(
        self,
        side: OrderSide,
        after: Machine<ID, A, P, Q>,
        events: Seq<Record<ID, P, Q>>,
    )
        requires
            self.book(side.opposite()).len() > 0,
            ordered(lowest_first(side.opposite()), self.book(side.opposite())),
            after.book(side.opposite()) == self.book(side.opposite()).drop_first(),
            after.events.len() == self.events.len() + 2,
            grown_from(self.events, after.events),
            is_fill(after.events[self.events.len() as int]),
            is_fill(after.events[self.events.len() as int + 1]),
            fill_price(after.events[self.events.len() as int]) == self.book(side.opposite())[0].price,
            fill_price(after.events[self.events.len() as int + 1]) == self.book(side.opposite())[0].price,
            grown_from(after.events, events),
            in_book_order(lowest_first(side.opposite()), events, after.events.len() as int),
            after.book(side.opposite()).len() > 0 ==> none_ahead_of(
                lowest_first(side.opposite()),
                events,
                after.events.len() as int,
                after.book(side.opposite())[0].price,
            ),
            after.book(side.opposite()).len() == 0 ==> forall|i: int|
                after.events.len() <= i < events.len() ==> !is_fill(#[trigger] events[i]),
        ensures
            grown_from(self.events, events),
            in_book_order(lowest_first(side.opposite()), events, self.events.len() as int),
            none_ahead_of(
                lowest_first(side.opposite()),
                events,
                self.events.len() as int,
                self.book(side.opposite())[0].price,
            ),
    {
        let lowest = lowest_first(side.opposite());
        let book = self.book(side.opposite());
        let best = book[0].price;
        let n = self.events.len() as int;
        lemma_same_reflexive(best);
        assert(events.subrange(0, n) =~= self.events) by {
            assert forall|i: int| 0 <= i < n implies events[i] == self.events[i] by {
                assert(events.subrange(0, n + 2)[i] == after.events[i]);
                assert(after.events.subrange(0, n)[i] == self.events[i]);
            }
        }
        assert(events[n] == after.events[n]) by {
            assert(events.subrange(0, n + 2)[n] == after.events[n]);
        }
        assert(events[n + 1] == after.events[n + 1]) by {
            assert(events.subrange(0, n + 2)[n + 1] == after.events[n + 1]);
        }
        assert forall|i: int| n <= i < events.len() && is_fill(#[trigger] events[i]) implies !ahead(
            lowest,
            fill_price(events[i]),
            best,
        ) by {
            if i >= n + 2 {
                assert(after.book(side.opposite())[0] == book[1]);
                lemma_not_ahead_transitive(lowest, best, book[1].price, fill_price(events[i]));
            }
        }
        assert forall|i: int, j: int|
            #![trigger events[i], events[j]]
            n <= i < j < events.len() && is_fill(events[i]) && is_fill(events[j]) implies !ahead(
            lowest,
            fill_price(events[j]),
            fill_price(events[i]),
        ) by {
            if i < n + 2 {
                assert(fill_price(events[i]) == best);
            }
        }
    }
}

impl<ID: OrderId, A: Asset, P: Price, Q: Quantity> Machine<ID, A, P, Q> {
    /// A limit order that finds nothing to trade with and is cancelled right after
    /// leaves the storage as it was: the same books, the same pools, the same price in
    /// the cell. Only the clock and the reports tell that it was there.
    pub proof fn lemma_rest_then_cancel(
        self,
        first_price: Option<P>,
        order: crate::model::order_request::LimitOrderRequest<ID, A, P, Q>,
        second_price: Option<P>,
        cancel: CancelOrderRequest<ID, A>,
    )
        requires
            !holds(self.book(order.side), order.id),
            !(self.book(order.side.opposite()).len() > 0 && overlaps(
                order.side,
                order.price,
                self.book(order.side.opposite())[0].price,
            )),
            cancel.target_id == order.id,
            cancel.side == order.side,
            cancel.target_order_type == OrderType::Limit,
        ensures
            self.processed(first_price, OrderRequest::Limit(order)).processed(
                second_price,
                OrderRequest::Cancel(cancel),
            ).store == self.store,
    {
        let start = self.started(first_price);
        let at = start.now();
        let rests = LimitOrder {
            id: order.id,
            asset_pair: order.asset_pair,
            side: order.side,
            time_in_force: order.time_in_force,
            price: order.price,
            quantity: order.quantity,
            timestamp_ms: at,
        };
        let rested = start.dispatched(OrderRequest::Limit(order));
        let book = self.book(order.side);
        let lowest = lowest_first(order.side);
        assert(rested.book(order.side) == enqueued(lowest, book, rests));
        if let Some(p) = start.market_price {
            lemma_same_reflexive(p);
        }
        let middle = self.processed(first_price, OrderRequest::Limit(order));
        assert(middle.store == rested.store);
        let again = middle.started(second_price);
        lemma_enqueued_holds(lowest, book, rests, order.id);
        lemma_enqueued_without(lowest, book, rests);
        if let Some(p) = again.market_price {
            lemma_same_reflexive(p);
        }
        let gone = again.dispatched(OrderRequest::Cancel(cancel));
        assert(gone.store.bids == self.store.bids);
        assert(gone.store.asks == self.store.asks);
    }
}

impl<ID: OrderId, A: Asset, P: Price, Q: Quantity> Store<ID, A, P, Q> {
    /// Pools that are calm at a price are calm at every price that is equal to it.
    pub proof fn lemma_calm_same(self, p: P, q: P)
        requires
            self.calm(Some(p)),
            same(p, q),
        ensures
            self.calm(Some(q)),
    {
        assert forall|i: int| 0 <= i < self.high.len() implies below(
            q,
            (#[trigger] self.high[i]).stop_price(),
        ) by {
            lemma_below_transitive(q, p, self.high[i].stop_price());
        }
        assert forall|i: int| 0 <= i < self.low.len() implies below(
            (#[trigger] self.low[i]).stop_price(),
            q,
        ) by {
            lemma_below_transitive(self.low[i].stop_price(), p, q);
        }
    }

    /// A stop order that joins the pool on its side of the market leaves the pools
    /// calm.
    pub proof fn lemma_pooled_calm(self, above: bool, order: PendingStopOrder<ID, A, P, Q>, p: P)
        requires
            self.calm(Some(p)),
            if above {
                below(p, order.stop_price())
            } else {
                below(order.stop_price(), p)
            },
        ensures
            self.with_pool(above, enqueued(above, self.pool(above), order)).calm(Some(p)),
    {
        let pool = self.pool(above);
        let joined = enqueued(above, pool, order);
        assert forall|i: int| 0 <= i < joined.len() implies if above {
            below(p, (#[trigger] joined[i]).stop_price())
        } else {
            below(joined[i].stop_price(), p)
        } by {
            lemma_enqueued_entry(above, pool, order, i);
        }
    }
}

impl<ID: OrderId, A: Asset, P: Price, Q: Quantity> Machine<ID, A, P, Q> {
    /// Once the pool on the side to which the price has moved has been triggered at
    /// the new price, both pools are calm at that price.
    pub proof fn lemma_fired_calm(self, before: P, mark: P)
        requires
            self.store.well_formed(),
            self.store.calm(Some(before)),
            !same(before, mark),
        ensures
            self.fired(mark, below(before, mark)).store.calm(Some(mark)),
    {
        let above = below(before, mark);
        let after = self.fired(mark, above);
        self.lemma_fired(mark, above);
        lemma_trichotomy(before, mark);
        let pool = after.pool(above);
        lemma_slot(above, pool, mark);
        lemma_slot_splits(above, pool, mark);
        if above {
            assert forall|i: int| 0 <= i < after.store.low.len() implies below(
                (#[trigger] after.store.low[i]).stop_price(),
                mark,
            ) by {
                lemma_below_transitive(self.store.low[i].stop_price(), before, mark);
            }
        } else {
            assert forall|i: int| 0 <= i < after.store.high.len() implies below(
                mark,
                (#[trigger] after.store.high[i]).stop_price(),
            ) by {
                lemma_below_transitive(mark, before, self.store.high[i].stop_price());
            }
        }
    }

    /// Pools that were calm at the price `before` are calm at the last traded price
    /// once the stop orders have been looked after.
    pub proof fn lemma_settled_calm(self, before: Option<P>)
        requires
            self.store.well_formed(),
            self.store.calm(before),
            before is Some ==> self.market_price is Some,
        ensures
            self.settled(before).store.calm(self.settled(before).market_price),
        decreases self.waiting(),
    {
        if moved(before, self.market_price) {
            let mark = self.market_price->0;
            let above = below(before->0, mark);
            let after = self.fired(mark, above);
            self.lemma_fired(mark, above);
            self.lemma_fired_calm(before->0, mark);
            if after.waiting() < self.waiting() {
                after.lemma_settled_calm(Some(mark));
            }
        } else if before is Some {
            self.store.lemma_calm_same(before->0, self.market_price->0);
        }
    }

    /// Pools that are calm at the price that a request begins with are still calm at
    /// that price once the request has been accepted and dealt with.
    pub proof fn lemma_dispatched_calm(self, request: OrderRequest<ID, A, P, Q>)
        requires
            self.store.well_formed(),
            request matches OrderRequest::Market(r) ==> self.store.places(r.id) == 0,
            request matches OrderRequest::Limit(r) ==> self.store.places(r.id) == 0,
            request matches OrderRequest::Stop(r) ==> self.store.places(r.id) == 0,
            request matches OrderRequest::StopLimit(r) ==> self.store.places(r.id) == 0,
            self.store.calm(self.market_price),
        ensures
            self.dispatched(request).store.calm(self.market_price),
    {
        let at = self.now();
        match request {
            OrderRequest::Market(r) => {
                let record = Ok(
                    MatchingEngineEvent::Accepted {
                        id: r.id,
                        order_type: OrderType::Market,
                        timestamp_ms: at,
                    },
                );
                self.ticked().emitted(record).lemma_market_matched(
                    MarketOrder {
                        id: r.id,
                        asset_pair: r.asset_pair,
                        side: r.side,
                        quantity: r.quantity,
                        timestamp_ms: at,
                    },
                );
            },
            OrderRequest::Limit(r) => {
                let record = Ok(
                    MatchingEngineEvent::Accepted {
                        id: r.id,
                        order_type: OrderType::Limit,
                        timestamp_ms: at,
                    },
                );
                self.ticked().emitted(record).lemma_limit_matched(
                    LimitOrder {
                        id: r.id,
                        asset_pair: r.asset_pair,
                        side: r.side,
                        time_in_force: r.time_in_force,
                        price: r.price,
                        quantity: r.quantity,
                        timestamp_ms: at,
                    },
                );
            },
            OrderRequest::Stop(r) => {
                let record = Ok(
                    MatchingEngineEvent::Accepted {
                        id: r.id,
                        order_type: OrderType::Stop,
                        timestamp_ms: at,
                    },
                );
                let start = self.ticked().emitted(record);
                let order = StopOrder {
                    id: r.id,
                    asset_pair: r.asset_pair,
                    side: r.side,
                    stop_price: r.stop_price,
                    quantity: r.quantity,
                    timestamp_ms: at,
                };
                if let Some(p) = self.market_price {
                    if below(order.stop_price, p) {
                        start.store.lemma_pooled_calm(false, PendingStopOrder::StopOrder(order), p);
                    } else if below(p, order.stop_price) {
                        start.store.lemma_pooled_calm(true, PendingStopOrder::StopOrder(order), p);
                    } else {
                        start.lemma_issued_market(order);
                    }
                }
            },
            OrderRequest::StopLimit(r) => {
                let record = Ok(
                    MatchingEngineEvent::Accepted {
                        id: r.id,
                        order_type: OrderType::StopLimit,
                        timestamp_ms: at,
                    },
                );
                let start = self.ticked().emitted(record);
                let order = StopLimitOrder {
                    id: r.id,
                    asset_pair: r.asset_pair,
                    side: r.side,
                    stop_price: r.stop_price,
                    time_in_force: r.time_in_force,
                    price: r.price,
                    quantity: r.quantity,
                    timestamp_ms: at,
                };
                if let Some(p) = self.market_price {
                    if below(order.stop_price, p) {
                        start.store.lemma_pooled_calm(
                            false,
                            PendingStopOrder::StopLimitOrder(order),
                            p,
                        );
                    } else if below(p, order.stop_price) {
                        start.store.lemma_pooled_calm(
                            true,
                            PendingStopOrder::StopLimitOrder(order),
                            p,
                        );
                    } else {
                        start.lemma_issued_limit(order);
                    }
                }
            },
            OrderRequest::Amend(r) => {
                self.lemma_amended(r);
            },
            OrderRequest::Cancel(r) => {
                self.lemma_cancelled(r);
            },
        }
    }

    /// After a request the market has reached none of the stop orders that still wait:
    /// every stop price in the pool above the market lies above the last traded price,
    /// every one in the pool below it lies below. This holds if it held of the price
    /// that the request began with.
    pub proof fn lemma_processed_calm(self, market_price: Option<P>, request: OrderRequest<ID, A, P, Q>)
        requires
            self.store.well_formed(),
            request matches OrderRequest::Market(r) ==> self.store.places(r.id) == 0,
            request matches OrderRequest::Limit(r) ==> self.store.places(r.id) == 0,
            request matches OrderRequest::Stop(r) ==> self.store.places(r.id) == 0,
            request matches OrderRequest::StopLimit(r) ==> self.store.places(r.id) == 0,
            self.store.calm(self.started(market_price).market_price),
        ensures
            self.processed(market_price, request).store.calm(
                self.processed(market_price, request).market_price,
            ),
    {
        let start = self.started(market_price);
        start.lemma_dispatched(request);
        start.lemma_dispatched_calm(request);
        start.dispatched(request).lemma_settled_calm(start.market_price);
    }
}

impl<ID: OrderId, A: Asset, P: Price, Q: Quantity> Machine<ID, A, P, Q> {
    /// Of two limit orders at one price that come to rest one after the other, the
    /// first stands before the second in the book. As a trade is always made with the
    /// first order of a book, the first of the two is matched before the second.
    pub proof fn lemma_rested_first_come_first_served(
        self,
        first: LimitOrder<ID, A, P, Q>,
        second: LimitOrder<ID, A, P, Q>,
    )
        requires
            first.side == second.side,
            same(first.price, second.price),
            first.id != second.id,
            !holds(self.book(first.side), first.id),
            !holds(self.book(first.side), second.id),
        ensures
            ({
                let book = self.rested(first).rested(second).book(first.side);
                index_of(book, first.id) < index_of(book, second.id) < book.len()
            }),
    {
        lemma_first_come_first_served(
            lowest_first(first.side),
            self.book(first.side),
            first,
            second,
        );
    }
}

} // verus!
