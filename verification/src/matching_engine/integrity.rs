use crate::matching_engine::machine::{Machine, Store};
use crate::model::asset::Asset;
use crate::model::order::{LimitOrder, MarketOrder, StopLimitOrder, StopOrder};
use crate::model::order_id::OrderId;
use crate::model::order_request::{AmendOrderRequest, CancelOrderRequest, OrderRequest};
use crate::model::order_side::OrderSide;
use crate::model::order_type::OrderType;
use crate::model::price::Price;
use crate::model::quantity::Quantity;
use crate::model::total_order::lemma_same_reflexive;
use crate::repository::limit_order::lowest_first;
use crate::repository::pending_stop_order::{reached, PendingStopOrder};
use crate::repository::queue::{
    enqueued, holds, lemma_drop_first_keeps, lemma_enqueued_distinct, lemma_enqueued_holds,
    lemma_enqueued_ordered, lemma_first, lemma_index_of, lemma_replaced_keeps, lemma_update_keeps,
    lemma_without_keeps, lookup, replaced, without,
};
use vstd::prelude::*;

verus! {

/// `after` has the pools and the price cell of `before`, and its books hold no id that
/// those of `before` did not hold, but for `except`.
pub open spec fn no_new_ids<ID: OrderId, A: Asset, P: Price, Q: Quantity>(
    before: Store<ID, A, P, Q>,
    after: Store<ID, A, P, Q>,
    except: Option<ID>,
) -> bool {
    &&& after.high == before.high
    &&& after.low == before.low
    &&& after.price == before.price
    &&& forall|id: ID| #[trigger]
        holds(after.bids, id) ==> holds(before.bids, id) || except == Some(id)
    &&& forall|id: ID| #[trigger]
        holds(after.asks, id) ==> holds(before.asks, id) || except == Some(id)
}

/// What every step leaves of the machine: the clock runs on the same timeline and
/// has not been turned back, and a last traded price that was known is still known.
pub open spec fn runs_on<ID: OrderId, A: Asset, P: Price, Q: Quantity>(
    before: Machine<ID, A, P, Q>,
    after: Machine<ID, A, P, Q>,
) -> bool {
    &&& after.timeline == before.timeline
    &&& after.ticks >= before.ticks
    &&& before.market_price is Some ==> after.market_price is Some
}

impl<ID: OrderId, A: Asset, P: Price, Q: Quantity> Store<ID, A, P, Q> {
    /// A storage whose books took no new id still holds no id twice; one that took a
    /// single new id does so where that id was found nowhere.
    pub proof fn lemma_no_new_ids_unique(self, after: Self, except: Option<ID>)
        requires
            self.unique(),
            no_new_ids(self, after, except),
            except matches Some(id) ==> self.places(id) == 0 && !(holds(after.bids, id) && holds(
                after.asks,
                id,
            )),
        ensures
            after.unique(),
    {
        assert forall|id: ID| #[trigger] after.places(id) <= 1 by {
            assert(self.places(id) <= 1);
        }
    }
}

impl<ID: OrderId, A: Asset, P: Price, Q: Quantity> Machine<ID, A, P, Q> {
    /// A trade keeps the books in order. It touches the book opposite to the incoming
    /// order and nothing else in the storage, and brings no id into it.
    pub proof fn lemma_traded(self, id: ID, side: OrderSide, order_type: OrderType, quantity: Q)
        requires
            self.store.queues_fine(),
            self.book(side.opposite()).len() > 0,
        ensures
            self.traded(id, side, order_type, quantity).store.queues_fine(),
            no_new_ids(self.store, self.traded(id, side, order_type, quantity).store, None),
            self.traded(id, side, order_type, quantity).book(side) == self.book(side),
            runs_on(self, self.traded(id, side, order_type, quantity)),
            !self.fills(side, quantity) ==> self.traded(id, side, order_type, quantity).book(
                side.opposite(),
            ) == self.book(side.opposite()).drop_first(),
    {
        let book = self.book(side.opposite());
        let top = book[0];
        let after = self.traded(id, side, order_type, quantity);
        let ascending = lowest_first(side.opposite());
        self.store.lemma_traded_sided(side.opposite(), quantity);
        lemma_drop_first_keeps(ascending, book);
        lemma_same_reflexive(top.price);
        lemma_update_keeps(ascending, book, 0, top.reduced(quantity));
    }

    /// A market order that has been matched leaves the books in order. It touches the
    /// book opposite to it and nothing else in the storage, and brings no id into it.
    pub proof fn lemma_market_matched(self, order: MarketOrder<ID, A, Q>)
        requires
            self.store.queues_fine(),
        ensures
            self.market_matched(order).store.queues_fine(),
            no_new_ids(self.store, self.market_matched(order).store, None),
            self.market_matched(order).book(order.side) == self.book(order.side),
            runs_on(self, self.market_matched(order)),
        decreases self.book(order.side.opposite()).len(),
    {
        let book = self.book(order.side.opposite());
        if book.len() > 0 {
            let after = self.traded(order.id, order.side, OrderType::Market, order.quantity);
            self.lemma_traded(order.id, order.side, OrderType::Market, order.quantity);
            if !self.fills(order.side, order.quantity) {
                after.lemma_market_matched(order.reduced(book[0].quantity));
            }
        }
    }

    /// A limit order that has come to rest leaves the books in order, with its id as
    /// the only new one.
    pub proof fn lemma_rested(self, order: LimitOrder<ID, A, P, Q>)
        requires
            self.store.queues_fine(),
            !holds(self.book(order.side), order.id),
        ensures
            self.rested(order).store.queues_fine(),
            no_new_ids(self.store, self.rested(order).store, Some(order.id)),
            self.rested(order).book(order.side.opposite()) == self.book(order.side.opposite()),
            runs_on(self, self.rested(order)),
    {
        let ascending = lowest_first(order.side);
        let book = self.book(order.side);
        let joined = enqueued(ascending, book, order);
        lemma_enqueued_ordered(ascending, book, order);
        lemma_enqueued_distinct(ascending, book, order);
        assert forall|id: ID| #[trigger] holds(joined, id) implies holds(book, id) || id
            == order.id by {
            lemma_enqueued_holds(ascending, book, order, id);
        }
        assert forall|i: int| 0 <= i < joined.len() implies (#[trigger] joined[i]).side
            == order.side by {
            let k = crate::repository::queue::slot(ascending, book, order.price);
            crate::repository::queue::lemma_slot(ascending, book, order.price);
            if i < k {
                assert(joined[i] == book[i]);
            } else if i > k {
                assert(joined[i] == book[i - 1]);
            }
        }
    }

    /// A limit order that has been matched leaves the books in order, and brings no id
    /// into them but, where it came to rest, its own.
    pub proof fn lemma_limit_matched(self, order: LimitOrder<ID, A, P, Q>)
        requires
            self.store.queues_fine(),
            !holds(self.book(order.side), order.id),
        ensures
            self.limit_matched(order).store.queues_fine(),
            no_new_ids(self.store, self.limit_matched(order).store, Some(order.id)),
            !holds(self.limit_matched(order).book(order.side.opposite()), order.id) || holds(
                self.book(order.side.opposite()),
                order.id,
            ),
            runs_on(self, self.limit_matched(order)),
        decreases self.book(order.side.opposite()).len(),
    {
        let book = self.book(order.side.opposite());
        if !self.crosses(order) {
            self.lemma_rested(order);
        } else {
            let after = self.traded(order.id, order.side, OrderType::Limit, order.quantity);
            self.lemma_traded(order.id, order.side, OrderType::Limit, order.quantity);
            if !self.fills(order.side, order.quantity) {
                after.lemma_limit_matched(order.reduced(book[0].quantity));
            }
        }
    }

    /// An amended order leaves the storage well formed.
    pub proof fn lemma_amended(self, request: AmendOrderRequest<ID, A, P, Q>)
        requires
            self.store.well_formed(),
        ensures
            self.amended(request).store.well_formed(),
            runs_on(self, self.amended(request)),
            self.amended(request).market_price == self.market_price,
            self.amended(request).store.high == self.store.high,
            self.amended(request).store.low == self.store.low,
            self.amended(request).store.price == self.store.price,
    {
        let book = self.book(request.side);
        let ascending = lowest_first(request.side);
        if request.target_order_type == OrderType::Limit {
            if let Some(target) = lookup(book, request.target_id) {
                let changed = LimitOrder {
                    price: request.price,
                    quantity: request.quantity,
                    timestamp_ms: self.now(),
                    ..target
                };
                let after = self.amended(request);
                let next = replaced(ascending, book, changed);
                lemma_index_of(book, request.target_id);
                lemma_replaced_keeps(ascending, book, changed);
                let i = crate::repository::queue::index_of(book, request.target_id);
                assert forall|j: int| 0 <= j < next.len() implies (#[trigger] next[j]).side
                    == request.side by {
                    self.lemma_replaced_sided(request.side, changed, j);
                }
                assert forall|id: ID| #[trigger] after.store.places(id) <= 1 by {
                    assert(self.store.places(id) <= 1);
                }
            }
        }
    }

    /// Every order of a book in which `changed` took the place of an order of the same
    /// side is of that side.
    proof fn lemma_replaced_sided(self, side: OrderSide, changed: LimitOrder<ID, A, P, Q>, j: int)
        requires
            self.store.sided(),
            changed.side == side,
            0 <= j < replaced(lowest_first(side), self.book(side), changed).len(),
        ensures
            replaced(lowest_first(side), self.book(side), changed)[j].side == side,
    {
        let ascending = lowest_first(side);
        let book = self.book(side);
        let i = crate::repository::queue::index_of(book, changed.id);
        lemma_index_of(book, changed.id);
        if holds(book, changed.id) {
            if crate::model::total_order::same(book[i].price, changed.price) {
            } else {
                let rest = book.remove(i);
                let k = crate::repository::queue::slot(ascending, rest, changed.price);
                crate::repository::queue::lemma_slot(ascending, rest, changed.price);
                let next = enqueued(ascending, rest, changed);
                if j < k {
                    assert(next[j] == rest[j]);
                    assert(rest[j] == book[if j < i {
                        j
                    } else {
                        j + 1
                    }]);
                } else if j > k {
                    assert(next[j] == rest[j - 1]);
                    assert(rest[j - 1] == book[if j - 1 < i {
                        j - 1
                    } else {
                        j
                    }]);
                }
            }
        }
    }

    /// A cancelled order leaves the storage well formed.
    pub proof fn lemma_cancelled(self, request: CancelOrderRequest<ID, A>)
        requires
            self.store.well_formed(),
        ensures
            self.cancelled(request).store.well_formed(),
            runs_on(self, self.cancelled(request)),
            self.cancelled(request).market_price == self.market_price,
            self.cancelled(request).store.high == self.store.high,
            self.cancelled(request).store.low == self.store.low,
            self.cancelled(request).store.price == self.store.price,
    {
        let book = self.book(request.side);
        let ascending = lowest_first(request.side);
        if request.target_order_type == OrderType::Limit && holds(book, request.target_id) {
            let after = self.cancelled(request);
            let next = without(book, request.target_id);
            lemma_without_keeps(ascending, book, request.target_id);
            lemma_index_of(book, request.target_id);
            let i = crate::repository::queue::index_of(book, request.target_id);
            assert forall|j: int| 0 <= j < next.len() implies (#[trigger] next[j]).side
                == request.side by {
                assert(next[j] == book[if j < i {
                    j
                } else {
                    j + 1
                }]);
            }
            assert forall|id: ID| #[trigger] after.store.places(id) <= 1 by {
                assert(self.store.places(id) <= 1);
            }
        }
    }

    /// A stop order or a stop-limit order that joined a pool leaves the storage well
    /// formed, if its id was found nowhere.
    pub proof fn lemma_pooled(self, above: bool, order: PendingStopOrder<ID, A, P, Q>)
        requires
            self.store.well_formed(),
            self.store.places(order.id()) == 0,
        ensures
            self.with_pool(above, enqueued(above, self.pool(above), order)).store.well_formed(),
    {
        let pool = self.pool(above);
        let after = self.with_pool(above, enqueued(above, pool, order));
        lemma_enqueued_ordered(above, pool, order);
        lemma_enqueued_distinct(above, pool, order);
        assert forall|id: ID| #[trigger] after.store.places(id) <= 1 by {
            lemma_enqueued_holds(above, pool, order, id);
            assert(self.store.places(id) <= 1);
        }
    }

    /// A stop order that became a market order leaves the books in order and brings no
    /// id into them.
    pub proof fn lemma_issued_market(self, order: StopOrder<ID, A, P, Q>)
        requires
            self.store.queues_fine(),
        ensures
            self.issued_market(order).store.queues_fine(),
            no_new_ids(self.store, self.issued_market(order).store, None),
            runs_on(self, self.issued_market(order)),
    {
        let at = self.now();
        let start = self.ticked().emitted(
            Ok(
                crate::matching_engine::output::MatchingEngineEvent::StopOrderIssueMarketOrder {
                    id: order.id,
                    timestamp_ms: at,
                },
            ),
        );
        start.lemma_market_matched(order.issued(at));
    }

    /// A stop-limit order that became a limit order leaves the books in order and
    /// brings no id into them but its own.
    pub proof fn lemma_issued_limit(self, order: StopLimitOrder<ID, A, P, Q>)
        requires
            self.store.queues_fine(),
            !holds(self.book(order.side), order.id),
        ensures
            self.issued_limit(order).store.queues_fine(),
            no_new_ids(self.store, self.issued_limit(order).store, Some(order.id)),
            !holds(self.issued_limit(order).book(order.side.opposite()), order.id) || holds(
                self.book(order.side.opposite()),
                order.id,
            ),
            runs_on(self, self.issued_limit(order)),
    {
        let at = self.now();
        let start = self.ticked().emitted(
            Ok(
                crate::matching_engine::output::MatchingEngineEvent::StopLimitOrderIssueLimitOrder {
                    id: order.id,
                    timestamp_ms: at,
                },
            ),
        );
        start.lemma_limit_matched(order.issued(at));
    }

    /// A stop order that has been taken in leaves the storage well formed, if its id
    /// was found nowhere.
    pub proof fn lemma_stop_placed(self, order: StopOrder<ID, A, P, Q>)
        requires
            self.store.well_formed(),
            self.store.places(order.id) == 0,
        ensures
            self.stop_placed(order).store.well_formed(),
            runs_on(self, self.stop_placed(order)),
    {
        if let Some(market_price) = self.market_price {
            self.lemma_pooled(false, PendingStopOrder::StopOrder(order));
            self.lemma_pooled(true, PendingStopOrder::StopOrder(order));
            self.lemma_issued_market(order);
            self.store.lemma_no_new_ids_unique(self.issued_market(order).store, None);
        }
    }

    /// A stop-limit order that has been taken in leaves the storage well formed, if its
    /// id was found nowhere.
    pub proof fn lemma_stop_limit_placed(self, order: StopLimitOrder<ID, A, P, Q>)
        requires
            self.store.well_formed(),
            self.store.places(order.id) == 0,
        ensures
            self.stop_limit_placed(order).store.well_formed(),
            runs_on(self, self.stop_limit_placed(order)),
    {
        if let Some(market_price) = self.market_price {
            self.lemma_pooled(false, PendingStopOrder::StopLimitOrder(order));
            self.lemma_pooled(true, PendingStopOrder::StopLimitOrder(order));
            self.lemma_issued_limit(order);
            self.store.lemma_no_new_ids_unique(self.issued_limit(order).store, Some(order.id));
        }
    }

    /// A triggered stop order leaves the storage well formed. It is gone from its pool,
    /// and the other pool and the price cell are as they were.
    pub proof fn lemma_fired_first(self, above: bool)
        requires
            self.store.well_formed(),
            self.pool(above).len() > 0,
        ensures
            self.fired_first(above).store.well_formed(),
            self.fired_first(above).pool(above) == self.pool(above).drop_first(),
            self.fired_first(above).pool(!above) == self.pool(!above),
            self.fired_first(above).store.price == self.store.price,
            runs_on(self, self.fired_first(above)),
    {
        let pool = self.pool(above);
        let first = pool[0];
        let after = self.fired_first(above);
        lemma_first(above, pool, first);
        lemma_drop_first_keeps(above, pool);
        assert(self.store.places(first.id()) <= 1);
        let issued = match first {
            PendingStopOrder::StopOrder(order) => {
                self.lemma_issued_market(order);
                self.issued_market(order)
            },
            PendingStopOrder::StopLimitOrder(order) => {
                self.lemma_issued_limit(order);
                self.issued_limit(order)
            },
        };
        assert(after == issued.with_pool(above, pool.drop_first()));
        assert forall|id: ID| #[trigger] after.store.places(id) <= 1 by {
            assert(self.store.places(id) <= 1);
        }
    }

    /// Triggering what the market has reached leaves the storage well formed. It never
    /// lets an order into a pool, and where it took none out it did nothing at all.
    pub proof fn lemma_fired(self, mark: P, above: bool)
        requires
            self.store.well_formed(),
        ensures
            self.fired(mark, above).store.well_formed(),
            self.fired(mark, above).pool(!above) == self.pool(!above),
            self.fired(mark, above).store.price == self.store.price,
            self.fired(mark, above).waiting() <= self.waiting(),
            self.fired(mark, above).waiting() == self.waiting() ==> self.fired(mark, above)
                == self,
            reached(above, self.fired(mark, above).pool(above), mark) == 0,
            runs_on(self, self.fired(mark, above)),
        decreases self.pool(above).len(),
    {
        crate::repository::queue::lemma_slot(above, self.pool(above), mark);
        if reached(above, self.pool(above), mark) > 0 {
            self.lemma_fired_first(above);
            self.fired_first(above).lemma_fired(mark, above);
        }
    }

    /// Looking after the stop orders leaves the storage well formed.
    pub proof fn lemma_settled(self, before: Option<P>)
        requires
            self.store.well_formed(),
        ensures
            self.settled(before).store.well_formed(),
            self.settled(before).store.price == self.store.price,
            runs_on(self, self.settled(before)),
        decreases self.waiting(),
    {
        if crate::matching_engine::machine::moved(before, self.market_price) {
            let mark = self.market_price->0;
            let above = crate::model::total_order::below(before->0, mark);
            let after = self.fired(mark, above);
            self.lemma_fired(mark, above);
            if after.waiting() < self.waiting() {
                after.lemma_settled(Some(mark));
            }
        }
    }

    /// A request that has been accepted and dealt with leaves the storage well formed,
    /// if the id of the order that it brings was found nowhere.
    pub proof fn lemma_dispatched(self, request: OrderRequest<ID, A, P, Q>)
        requires
            self.store.well_formed(),
            request matches OrderRequest::Market(r) ==> self.store.places(r.id) == 0,
            request matches OrderRequest::Limit(r) ==> self.store.places(r.id) == 0,
            request matches OrderRequest::Stop(r) ==> self.store.places(r.id) == 0,
            request matches OrderRequest::StopLimit(r) ==> self.store.places(r.id) == 0,
        ensures
            self.dispatched(request).store.well_formed(),
            runs_on(self, self.dispatched(request)),
    {
        let at = self.now();
        match request {
            OrderRequest::Market(r) => {
                let start = self.ticked().emitted(
                    Ok(
                        crate::matching_engine::output::MatchingEngineEvent::Accepted {
                            id: r.id,
                            order_type: OrderType::Market,
                            timestamp_ms: at,
                        },
                    ),
                );
                let order = MarketOrder {
                    id: r.id,
                    asset_pair: r.asset_pair,
                    side: r.side,
                    quantity: r.quantity,
                    timestamp_ms: at,
                };
                start.lemma_market_matched(order);
                self.store.lemma_no_new_ids_unique(start.market_matched(order).store, None);
            },
            OrderRequest::Limit(r) => {
                let start = self.ticked().emitted(
                    Ok(
                        crate::matching_engine::output::MatchingEngineEvent::Accepted {
                            id: r.id,
                            order_type: OrderType::Limit,
                            timestamp_ms: at,
                        },
                    ),
                );
                let order = LimitOrder {
                    id: r.id,
                    asset_pair: r.asset_pair,
                    side: r.side,
                    time_in_force: r.time_in_force,
                    price: r.price,
                    quantity: r.quantity,
                    timestamp_ms: at,
                };
                start.lemma_limit_matched(order);
                self.store.lemma_no_new_ids_unique(
                    start.limit_matched(order).store,
                    Some(order.id),
                );
            },
            OrderRequest::Stop(r) => {
                let start = self.ticked().emitted(
                    Ok(
                        crate::matching_engine::output::MatchingEngineEvent::Accepted {
                            id: r.id,
                            order_type: OrderType::Stop,
                            timestamp_ms: at,
                        },
                    ),
                );
                start.lemma_stop_placed(
                    StopOrder {
                        id: r.id,
                        asset_pair: r.asset_pair,
                        side: r.side,
                        stop_price: r.stop_price,
                        quantity: r.quantity,
                        timestamp_ms: at,
                    },
                );
            },
            OrderRequest::StopLimit(r) => {
                let start = self.ticked().emitted(
                    Ok(
                        crate::matching_engine::output::MatchingEngineEvent::Accepted {
                            id: r.id,
                            order_type: OrderType::StopLimit,
                            timestamp_ms: at,
                        },
                    ),
                );
                start.lemma_stop_limit_placed(
                    StopLimitOrder {
                        id: r.id,
                        asset_pair: r.asset_pair,
                        side: r.side,
                        stop_price: r.stop_price,
                        time_in_force: r.time_in_force,
                        price: r.price,
                        quantity: r.quantity,
                        timestamp_ms: at,
                    },
                );
            },
            OrderRequest::Amend(r) => {
                self.lemma_amended(r);
            },
            OrderRequest::Cancel(r) => {
                self.lemma_cancelled(r);
            },
        }
    }

    /// Between requests the storage is well formed: a request that finds it so leaves
    /// it so, if the id of the order that it brings was found nowhere.
    pub proof fn lemma_processed(self, market_price: Option<P>, request: OrderRequest<ID, A, P, Q>)
        requires
            self.store.well_formed(),
            request matches OrderRequest::Market(r) ==> self.store.places(r.id) == 0,
            request matches OrderRequest::Limit(r) ==> self.store.places(r.id) == 0,
            request matches OrderRequest::Stop(r) ==> self.store.places(r.id) == 0,
            request matches OrderRequest::StopLimit(r) ==> self.store.places(r.id) == 0,
        ensures
            self.processed(market_price, request).store.well_formed(),
            runs_on(self.started(market_price), self.processed(market_price, request)),
    {
        let start = self.started(market_price);
        start.lemma_dispatched(request);
        let settled = start.dispatched(request).settled(start.market_price);
        start.dispatched(request).lemma_settled(start.market_price);
        let done = settled.saved(start.market_price);
        assert forall|id: ID| #[trigger] done.store.places(id) <= 1 by {
            assert(settled.store.places(id) <= 1);
        }
    }
}

} // verus!
