//! The engine: how a request is matched against the books, how stop orders are placed
//! and triggered, and what is reported of it.
pub mod integrity;
pub mod laws;
pub mod machine;
pub mod output;
pub mod venue;

use crate::matching_engine::output::{
    MatchingEngineEvent, MatchingEngineFailure, MatchingEngineOutput,
};
use crate::matching_engine::machine::{acceptable, copied};
use crate::matching_engine::venue::{
    create_order, create_pending, delete_order, delete_pending, find_order, machine_at,
    machine_of, next_order, reached_pending, read_price, reliable, same_venue, store_of,
    update_order, write_price, Venue,
};
use crate::model::order::{LimitOrder, MarketOrder, StopLimitOrder, StopOrder};
use crate::model::order_request::{AmendOrderRequest, CancelOrderRequest, OrderRequest};
use crate::model::order_side::OrderSide;
use crate::model::order_type::OrderType;
use crate::model::total_order::{
    is_below, is_same, lemma_same_reflexive, lemma_trichotomy, TotalOrder,
};
use crate::repository::limit_order::lowest_first;
use crate::repository::pending_stop_order::{reached, triggered, PendingStopOrder};
use crate::repository::queue::{
    head, holds, lemma_first, lemma_index_of, lemma_slot, lemma_slot_skip,
};
use vstd::prelude::*;

verus! {

/// How many stop orders the engine fetches from a pool at a time.
pub const BATCH_SIZE: i64 = 100;

/// What the engine hands back for a request.
pub type OrderProcessingResult<ID, P, Q> = MatchingEngineOutput<ID, P, Q>;

/// The engine of a venue: how a request is dealt with there. Nothing is committed
/// here: the transaction belongs to the caller.
pub trait MatchingEngine: Venue {
    /// Matches a market order against the opposite book until it is filled or the
    /// book is empty.
    fn process_market_order(
        &mut self,
        tx: &mut Self::Transaction,
        results: &mut OrderProcessingResult<Self::OrderId, Self::Price, Self::Quantity>,
        market_order: MarketOrder<Self::OrderId, Self::Asset, Self::Quantity>,
    ) -> (r: Result<(), Self::Err>)
        requires
            store_of(old(self), old(tx)).sided(),
        ensures
            same_venue(final(self), old(self)),
            reliable(old(self)) ==> r is Ok,
            r is Ok ==> machine_of(final(self), final(tx), final(results)) == machine_of(
                old(self),
                old(tx),
                old(results),
            ).market_matched(market_order),
    {
        let mut order = market_order;
        loop
            invariant
                same_venue(self, old(self)),
                order.side == market_order.side,
                store_of(self, tx).sided(),
                machine_of(self, tx, results).market_matched(order) == machine_of(
                    old(self),
                    old(tx),
                    old(results),
                ).market_matched(market_order),
            decreases store_of(self, tx).book(order.side.opposite()).len(),
        {
            let ghost m = machine_of(self, tx, results);
            let opposite_order = next_order(self, tx, order.side.opposite())?;
            if let Some(opposite_order) = opposite_order {
                let matching_complete = self.match_market_order_with_limit_order(
                    tx,
                    results,
                    &order,
                    &opposite_order,
                )?;
                proof {
                    m.store.lemma_traded_sided(order.side.opposite(), order.quantity);
                    Self::Quantity::lemma_leq_total(opposite_order.quantity, order.quantity);
                }
                if matching_complete {
                    return Ok(());
                }
                order = order.sub_quantity(opposite_order.quantity);
            } else {
                results.push(Err(MatchingEngineFailure::NoMatch(order.id)));
                return Ok(());
            }
        }
    }

    /// Matches a limit order against the opposite book as far as the prices overlap,
    /// and lets what is left of it rest.
    fn process_limit_order(
        &mut self,
        tx: &mut Self::Transaction,
        results: &mut OrderProcessingResult<Self::OrderId, Self::Price, Self::Quantity>,
        limit_order: LimitOrder<Self::OrderId, Self::Asset, Self::Price, Self::Quantity>,
    ) -> (r: Result<(), Self::Err>)
        requires
            store_of(old(self), old(tx)).sided(),
            !holds(store_of(old(self), old(tx)).book(limit_order.side), limit_order.id),
        ensures
            same_venue(final(self), old(self)),
            reliable(old(self)) ==> r is Ok,
            r is Ok ==> machine_of(final(self), final(tx), final(results)) == machine_of(
                old(self),
                old(tx),
                old(results),
            ).limit_matched(limit_order),
    {
        let mut order = limit_order;
        loop
            invariant
                same_venue(self, old(self)),
                order.side == limit_order.side,
                order.id == limit_order.id,
                store_of(self, tx).sided(),
                !holds(store_of(self, tx).book(order.side), order.id),
                machine_of(self, tx, results).limit_matched(order) == machine_of(
                    old(self),
                    old(tx),
                    old(results),
                ).limit_matched(limit_order),
            decreases store_of(self, tx).book(order.side.opposite()).len(),
        {
            let ghost m = machine_of(self, tx, results);
            let opposite_order = next_order(self, tx, order.side.opposite())?;
            if let Some(opposite_order) = opposite_order {
                let could_be_matched = match order.side {
                    // the prices of the bid and of the ask have to overlap
                    OrderSide::Bid => opposite_order.price.is_at_most(&order.price),
                    OrderSide::Ask => order.price.is_at_most(&opposite_order.price),
                };
                if could_be_matched {
                    let matching_complete = self.match_limit_order_with_limit_order(
                        tx,
                        results,
                        &order,
                        &opposite_order,
                    )?;
                    proof {
                        m.store.lemma_traded_sided(order.side.opposite(), order.quantity);
                        Self::Quantity::lemma_leq_total(opposite_order.quantity, order.quantity);
                    }
                    if matching_complete {
                        return Ok(());
                    }
                    order = order.sub_quantity(opposite_order.quantity);
                } else {
                    return self.store_new_limit_order(tx, results, &order);
                }
            } else {
                return self.store_new_limit_order(tx, results, &order);
            }
        }
    }

    /// Changes the price and the quantity of a resting limit order.
    fn process_amend_order_request(
        &mut self,
        tx: &mut Self::Transaction,
        results: &mut OrderProcessingResult<Self::OrderId, Self::Price, Self::Quantity>,
        request: &AmendOrderRequest<Self::OrderId, Self::Asset, Self::Price, Self::Quantity>,
    ) -> (r: Result<(), Self::Err>)
        ensures
            same_venue(final(self), old(self)),
            reliable(old(self)) ==> r is Ok,
            r is Ok ==> machine_of(final(self), final(tx), final(results)) == machine_of(
                old(self),
                old(tx),
                old(results),
            ).amended(*request),
    {
        match request.target_order_type {
            OrderType::Limit => {
                let ghost book = store_of(self, tx).book(request.side);
                let order = find_order(self, tx, request.side, &request.target_id)?;
                if let Some(found) = order {
                    let mut target_order = found;
                    let timestamp_ms = self.current_timestamp_ms();
                    target_order.price = request.price;
                    target_order.quantity = request.quantity;
                    target_order.timestamp_ms = timestamp_ms;
                    proof {
                        lemma_index_of(book, request.target_id);
                    }
                    update_order(self, tx, request.side, &target_order)?;
                    results.push(
                        Ok(
                            MatchingEngineEvent::Amended {
                                id: request.id,
                                target_id: request.target_id,
                                price: request.price,
                                quantity: request.quantity,
                                timestamp_ms,
                            },
                        ),
                    );
                } else {
                    results.push(
                        Err(
                            MatchingEngineFailure::OrderNotFound {
                                order_id: request.id,
                                target_order_id: request.target_id,
                            },
                        ),
                    );
                }
            },
            _ => {},
        }
        Ok(())
    }

    /// Takes a resting limit order out of its book.
    fn process_cancel_order_request(
        &mut self,
        tx: &mut Self::Transaction,
        results: &mut OrderProcessingResult<Self::OrderId, Self::Price, Self::Quantity>,
        request: &CancelOrderRequest<Self::OrderId, Self::Asset>,
    ) -> (r: Result<(), Self::Err>)
        ensures
            same_venue(final(self), old(self)),
            reliable(old(self)) ==> r is Ok,
            r is Ok ==> machine_of(final(self), final(tx), final(results)) == machine_of(
                old(self),
                old(tx),
                old(results),
            ).cancelled(*request),
    {
        match request.target_order_type {
            OrderType::Limit => {
                let deleted = delete_order(self, tx, request.side, &request.target_id)?;
                if deleted {
                    let timestamp_ms = self.current_timestamp_ms();
                    results.push(
                        Ok(
                            MatchingEngineEvent::Cancelled {
                                id: request.id,
                                target_id: request.target_id,
                                timestamp_ms,
                            },
                        ),
                    );
                } else {
                    results.push(
                        Err(
                            MatchingEngineFailure::OrderNotFound {
                                order_id: request.id,
                                target_order_id: request.target_id,
                            },
                        ),
                    );
                }
            },
            _ => {},
        }
        Ok(())
    }

    /// Lets a limit order rest in the book of its side.
    fn store_new_limit_order(
        &mut self,
        tx: &mut Self::Transaction,
        results: &mut OrderProcessingResult<Self::OrderId, Self::Price, Self::Quantity>,
        limit_order: &LimitOrder<Self::OrderId, Self::Asset, Self::Price, Self::Quantity>,
    ) -> (r: Result<(), Self::Err>)
        requires
            !holds(store_of(old(self), old(tx)).book(limit_order.side), limit_order.id),
        ensures
            same_venue(final(self), old(self)),
            reliable(old(self)) ==> r is Ok,
            r is Ok ==> machine_of(final(self), final(tx), final(results)) == machine_of(
                old(self),
                old(tx),
                old(results),
            ).rested(*limit_order),
    {
        create_order(self, tx, limit_order.side, limit_order)
    }

    /// Lets a market order trade with the first order of the opposite book, and says
    /// whether that filled it.
    fn match_market_order_with_limit_order(
        &mut self,
        tx: &mut Self::Transaction,
        results: &mut OrderProcessingResult<Self::OrderId, Self::Price, Self::Quantity>,
        order: &MarketOrder<Self::OrderId, Self::Asset, Self::Quantity>,
        opposite_order: &LimitOrder<Self::OrderId, Self::Asset, Self::Price, Self::Quantity>,
    ) -> (r: Result<bool, Self::Err>)
        requires
            head(store_of(old(self), old(tx)).book(order.side.opposite())) == Some(*opposite_order),
            opposite_order.side == order.side.opposite(),
        ensures
            same_venue(final(self), old(self)),
            reliable(old(self)) ==> r is Ok,
            r matches Ok(matching_complete) ==> machine_of(final(self), final(tx), final(results)) == machine_of(
                old(self),
                old(tx),
                old(results),
            ).traded(order.id, order.side, OrderType::Market, order.quantity) && matching_complete == machine_of(
                old(self),
                old(tx),
                old(results),
            ).fills(order.side, order.quantity),
    {
        trade(
            self,
            tx,
            results,
            order.id,
            order.side,
            OrderType::Market,
            order.quantity,
            opposite_order,
        )
    }

    /// Lets a limit order trade with the first order of the opposite book, and says
    /// whether that filled it.
    fn match_limit_order_with_limit_order(
        &mut self,
        tx: &mut Self::Transaction,
        results: &mut OrderProcessingResult<Self::OrderId, Self::Price, Self::Quantity>,
        order: &LimitOrder<Self::OrderId, Self::Asset, Self::Price, Self::Quantity>,
        opposite_order: &LimitOrder<Self::OrderId, Self::Asset, Self::Price, Self::Quantity>,
    ) -> (r: Result<bool, Self::Err>)
        requires
            head(store_of(old(self), old(tx)).book(order.side.opposite())) == Some(*opposite_order),
            opposite_order.side == order.side.opposite(),
        ensures
            same_venue(final(self), old(self)),
            reliable(old(self)) ==> r is Ok,
            r matches Ok(matching_complete) ==> machine_of(final(self), final(tx), final(results)) == machine_of(
                old(self),
                old(tx),
                old(results),
            ).traded(order.id, order.side, OrderType::Limit, order.quantity) && matching_complete == machine_of(
                old(self),
                old(tx),
                old(results),
            ).fills(order.side, order.quantity),
    {
        trade(
            self,
            tx,
            results,
            order.id,
            order.side,
            OrderType::Limit,
            order.quantity,
            opposite_order,
        )
    }

    /// Takes a stop order in: it waits in a pool, or becomes a market order at once.
    fn process_stop_order(
        &mut self,
        tx: &mut Self::Transaction,
        results: &mut OrderProcessingResult<Self::OrderId, Self::Price, Self::Quantity>,
        stop_order: StopOrder<Self::OrderId, Self::Asset, Self::Price, Self::Quantity>,
    ) -> (r: Result<(), Self::Err>)
        requires
            store_of(old(self), old(tx)).sided(),
            !holds(store_of(old(self), old(tx)).high, stop_order.id),
            !holds(store_of(old(self), old(tx)).low, stop_order.id),
        ensures
            same_venue(final(self), old(self)),
            reliable(old(self)) ==> r is Ok,
            r is Ok ==> machine_of(final(self), final(tx), final(results)) == machine_of(
                old(self),
                old(tx),
                old(results),
            ).stop_placed(stop_order),
    {
        if results.market_price.is_none() {
            results.push(Err(MatchingEngineFailure::MissingMarketPriceForStopOrder(stop_order.id)));
            return Ok(());
        }
        let market_price = results.market_price.unwrap();
        if is_below(&stop_order.stop_price, &market_price) {
            create_pending(self, tx, false, &PendingStopOrder::StopOrder(stop_order))
        } else if is_below(&market_price, &stop_order.stop_price) {
            create_pending(self, tx, true, &PendingStopOrder::StopOrder(stop_order))
        } else {
            // the market is at the stop price
            let timestamp_ms = self.current_timestamp_ms();
            let market_order = stop_order.issue_market_order(timestamp_ms);
            results.push(
                Ok(MatchingEngineEvent::StopOrderIssueMarketOrder { id: market_order.id, timestamp_ms }),
            );
            self.process_market_order(tx, results, market_order)
        }
    }

    /// Takes a stop-limit order in: it waits in a pool, or becomes a limit order at
    /// once.
    fn process_stop_limit_order(
        &mut self,
        tx: &mut Self::Transaction,
        results: &mut OrderProcessingResult<Self::OrderId, Self::Price, Self::Quantity>,
        stop_limit_order: StopLimitOrder<Self::OrderId, Self::Asset, Self::Price, Self::Quantity>,
    ) -> (r: Result<(), Self::Err>)
        requires
            store_of(old(self), old(tx)).sided(),
            !holds(store_of(old(self), old(tx)).high, stop_limit_order.id),
            !holds(store_of(old(self), old(tx)).low, stop_limit_order.id),
            !holds(
                store_of(old(self), old(tx)).book(stop_limit_order.side),
                stop_limit_order.id,
            ),
        ensures
            same_venue(final(self), old(self)),
            reliable(old(self)) ==> r is Ok,
            r is Ok ==> machine_of(final(self), final(tx), final(results)) == machine_of(
                old(self),
                old(tx),
                old(results),
            ).stop_limit_placed(stop_limit_order),
    {
        if results.market_price.is_none() {
            results.push(Err(MatchingEngineFailure::MissingMarketPriceForStopOrder(stop_limit_order.id)));
            return Ok(());
        }
        let market_price = results.market_price.unwrap();
        if is_below(&stop_limit_order.stop_price, &market_price) {
            create_pending(self, tx, false, &PendingStopOrder::StopLimitOrder(stop_limit_order))
        } else if is_below(&market_price, &stop_limit_order.stop_price) {
            create_pending(self, tx, true, &PendingStopOrder::StopLimitOrder(stop_limit_order))
        } else {
            // the market is at the stop price
            let timestamp_ms = self.current_timestamp_ms();
            let limit_order = stop_limit_order.issue_limit_order(timestamp_ms);
            results.push(
                Ok(MatchingEngineEvent::StopLimitOrderIssueLimitOrder { id: limit_order.id, timestamp_ms }),
            );
            self.process_limit_order(tx, results, limit_order)
        }
    }

    /// Looks after the stop orders once a request has been dealt with. Where the last
    /// traded price has gone up from `initial_market_price`, the orders of the pool
    /// above the market whose stop price it has reached become market or limit orders,
    /// where it has gone down, those of the pool below. They are fetched a batch at a
    /// time. What they trade may move the price again and reach more stop orders: the
    /// pools are looked at until a look triggers nothing.
    fn handle_price_change(
        &mut self,
        tx: &mut Self::Transaction,
        results: &mut OrderProcessingResult<Self::OrderId, Self::Price, Self::Quantity>,
        initial_market_price: Option<&Self::Price>,
    ) -> (r: Result<(), Self::Err>)
        requires
            store_of(old(self), old(tx)).well_formed(),
        ensures
            same_venue(final(self), old(self)),
            reliable(old(self)) ==> r is Ok,
            r is Ok ==> machine_of(final(self), final(tx), final(results)) == machine_of(
                old(self),
                old(tx),
                old(results),
            ).settled(copied(initial_market_price)),
    {
        let mut previous: Option<Self::Price> = match initial_market_price {
            Some(price) => Some(*price),
            None => None,
        };
        loop
            invariant
                same_venue(self, old(self)),
                store_of(self, tx).well_formed(),
                machine_of(self, tx, results).settled(previous) == machine_of(
                    old(self),
                    old(tx),
                    old(results),
                ).settled(copied(initial_market_price)),
            decreases machine_of(self, tx, results).waiting(),
        {
            let increased = if let Some(latest_market_price) = &results.market_price {
                if let Some(previous_market_price) = &previous {
                    proof {
                        lemma_trichotomy(*previous_market_price, *latest_market_price);
                    }
                    if is_below(previous_market_price, latest_market_price) {
                        true
                    } else if is_below(latest_market_price, previous_market_price) {
                        false
                    } else {
                        return Ok(());
                    }
                } else {
                    return Ok(());
                }
            } else {
                return Ok(());
            };
            let market_price = results.market_price.unwrap();
            let ghost start = machine_of(self, tx, results);
            let mut triggered_any = false;
            loop
                invariant
                    same_venue(self, old(self)),
                    store_of(self, tx).well_formed(),
                    machine_of(self, tx, results).fired(market_price, increased) == start.fired(
                        market_price,
                        increased,
                    ),
                    machine_of(self, tx, results).waiting() <= start.waiting(),
                    triggered_any <==> machine_of(self, tx, results).waiting() < start.waiting(),
                ensures
                    same_venue(self, old(self)),
                    store_of(self, tx).well_formed(),
                    machine_of(self, tx, results) == start.fired(market_price, increased),
                    triggered_any <==> machine_of(self, tx, results).waiting() < start.waiting(),
                decreases store_of(self, tx).pool(increased).len(),
            {
                let ghost fetched_from = machine_of(self, tx, results);
                let ghost pool = fetched_from.pool(increased);
                let pending_orders = reached_pending(
                    self,
                    tx,
                    increased,
                    &market_price,
                    BATCH_SIZE,
                )?;
                let fetch_len = pending_orders.len();
                proof {
                    lemma_slot(increased, pool, market_price);
                    assert(pool.skip(0) =~= pool);
                }
                let mut i: usize = 0;
                while i < fetch_len
                    invariant
                        i <= fetch_len,
                        fetch_len == pending_orders.len(),
                        same_venue(self, old(self)),
                        store_of(self, tx).well_formed(),
                        pending_orders@ == triggered(
                            increased,
                            pool,
                            market_price,
                            BATCH_SIZE as int,
                        ),
                        fetch_len <= reached(increased, pool, market_price) <= pool.len(),
                        machine_of(self, tx, results).pool(increased) == pool.skip(i as int),
                        machine_of(self, tx, results).waiting() + i == fetched_from.waiting(),
                        machine_of(self, tx, results).fired(market_price, increased)
                            == start.fired(market_price, increased),
                    decreases fetch_len - i,
                {
                    let ghost m = machine_of(self, tx, results);
                    let pending_order = pending_orders[i];
                    proof {
                        lemma_slot_skip(increased, pool, market_price, i as int);
                        assert(m.pool(increased)[0] == pool[i as int]);
                        lemma_first(increased, m.pool(increased), pending_order);
                        assert(m.store.places(pending_order.id()) <= 1);
                        m.lemma_fired_first(increased);
                        assert(pool.skip(i as int).drop_first() =~= pool.skip(i as int + 1));
                    }
                    match &pending_order {
                        PendingStopOrder::StopOrder(stop_order) => {
                            let timestamp_ms = self.current_timestamp_ms();
                            let market_order = stop_order.issue_market_order(timestamp_ms);
                            results.push(
                                Ok(
                                    MatchingEngineEvent::StopOrderIssueMarketOrder {
                                        id: market_order.id,
                                        timestamp_ms,
                                    },
                                ),
                            );
                            self.process_market_order(tx, results, market_order)?;
                            proof {
                                m.lemma_issued_market(*stop_order);
                            }
                        },
                        PendingStopOrder::StopLimitOrder(stop_limit_order) => {
                            let timestamp_ms = self.current_timestamp_ms();
                            let limit_order = stop_limit_order.issue_limit_order(timestamp_ms);
                            results.push(
                                Ok(
                                    MatchingEngineEvent::StopLimitOrderIssueLimitOrder {
                                        id: limit_order.id,
                                        timestamp_ms,
                                    },
                                ),
                            );
                            self.process_limit_order(tx, results, limit_order)?;
                            proof {
                                m.lemma_issued_limit(*stop_limit_order);
                            }
                        },
                    }
                    delete_pending(self, tx, increased, &pending_order)?;
                    assert(machine_of(self, tx, results) == m.fired_first(increased));
                    i += 1;
                }
                if fetch_len > 0 {
                    triggered_any = true;
                }
                proof {
                    lemma_slot_skip(increased, pool, market_price, fetch_len as int);
                }
                if fetch_len < BATCH_SIZE as usize {
                    break ;
                }
            }
            proof {
                start.lemma_fired(market_price, increased);
            }
            if !triggered_any {
                return Ok(());
            }
            previous = Some(market_price);
        }
    }

    /// Deals with one request inside the transaction `tx` and hands back what happened.
    /// The last traded price is `market_price` or, where the caller gives none, the one
    /// in the price cell. Once the request is dealt with, the stop orders are looked
    /// after, and the last traded price is written to the cell if it is a new one.
    fn process_order_request(
        &mut self,
        tx: &mut Self::Transaction,
        market_price: Option<Self::Price>,
        order_request: OrderRequest<Self::OrderId, Self::Asset, Self::Price, Self::Quantity>,
    ) -> (r: Result<
        OrderProcessingResult<Self::OrderId, Self::Price, Self::Quantity>,
        Self::Err,
    >)
        requires
            store_of(old(self), old(tx)).well_formed(),
            acceptable(old(self).pair(), store_of(old(self), old(tx)), order_request),
        ensures
            same_venue(final(self), old(self)),
            reliable(old(self)) ==> r is Ok,
            r matches Ok(output) ==> machine_of(final(self), final(tx), &output) == machine_at(
                old(self),
                old(tx),
            ).processed(market_price, order_request),
            r is Ok ==> store_of(final(self), final(tx)).well_formed(),
    {
        let ghost start = machine_at(self, tx).started(market_price);
        let initial_market_price = if let Some(p) = market_price {
            Some(p)
        } else {
            // no price was given: the one in the cell is the last traded price
            read_price(self, tx)?
        };
        let mut proc_result: OrderProcessingResult<Self::OrderId, Self::Price, Self::Quantity> =
            OrderProcessingResult::new(initial_market_price);
        assert(machine_of(self, tx, &proc_result) == start);
        proof {
            start.lemma_dispatched(order_request);
            start.dispatched(order_request).lemma_settled(start.market_price);
            machine_at(self, tx).lemma_processed(market_price, order_request);
        }
        match order_request {
            OrderRequest::Market(request) => {
                let timestamp_ms = self.current_timestamp_ms();
                let market_order = MarketOrder::new(
                    request.id,
                    request.asset_pair,
                    request.side,
                    request.quantity,
                    timestamp_ms,
                );
                proc_result.push(
                    Ok(
                        MatchingEngineEvent::Accepted {
                            id: market_order.id,
                            order_type: OrderType::Market,
                            timestamp_ms,
                        },
                    ),
                );
                self.process_market_order(tx, &mut proc_result, market_order)?;
            },
            OrderRequest::Limit(request) => {
                let timestamp_ms = self.current_timestamp_ms();
                let limit_order = LimitOrder::new(
                    request.id,
                    request.asset_pair,
                    request.side,
                    request.time_in_force,
                    request.price,
                    request.quantity,
                    timestamp_ms,
                );
                proc_result.push(
                    Ok(
                        MatchingEngineEvent::Accepted {
                            id: limit_order.id,
                            order_type: OrderType::Limit,
                            timestamp_ms,
                        },
                    ),
                );
                self.process_limit_order(tx, &mut proc_result, limit_order)?;
            },
            OrderRequest::Stop(request) => {
                let timestamp_ms = self.current_timestamp_ms();
                let stop_order = StopOrder::new(
                    request.id,
                    request.asset_pair,
                    request.side,
                    request.stop_price,
                    request.quantity,
                    timestamp_ms,
                );
                proc_result.push(
                    Ok(
                        MatchingEngineEvent::Accepted {
                            id: stop_order.id,
                            order_type: OrderType::Stop,
                            timestamp_ms,
                        },
                    ),
                );
                self.process_stop_order(tx, &mut proc_result, stop_order)?;
            },
            OrderRequest::StopLimit(request) => {
                let timestamp_ms = self.current_timestamp_ms();
                let stop_limit_order = StopLimitOrder::new(
                    request.id,
                    request.asset_pair,
                    request.side,
                    request.stop_price,
                    request.time_in_force,
                    request.price,
                    request.quantity,
                    timestamp_ms,
                );
                proc_result.push(
                    Ok(
                        MatchingEngineEvent::Accepted {
                            id: stop_limit_order.id,
                            order_type: OrderType::StopLimit,
                            timestamp_ms,
                        },
                    ),
                );
                self.process_stop_limit_order(tx, &mut proc_result, stop_limit_order)?;
            },
            OrderRequest::Amend(request) => {
                self.process_amend_order_request(tx, &mut proc_result, &request)?;
            },
            OrderRequest::Cancel(request) => {
                self.process_cancel_order_request(tx, &mut proc_result, &request)?;
            },
        }
        assert(machine_of(self, tx, &proc_result) == start.dispatched(order_request));

        // the price may have moved and reached stop orders
        self.handle_price_change(tx, &mut proc_result, initial_market_price.as_ref())?;

        // the last traded price is kept
        if let Some(latest_market_price) = &proc_result.market_price {
            let diff = match initial_market_price {
                Some(initial_market_price) => !is_same(
                    &initial_market_price,
                    latest_market_price,
                ),
                None => true,
            };
            if diff {
                write_price(self, tx, latest_market_price)?;
            }
        }
        Ok(proc_result)
    }
}

impl<V: Venue> MatchingEngine for V {

}

/// One trade between an incoming order and the first order of the opposite book.
fn trade<V: Venue>(
    venue: &mut V,
    tx: &mut V::Transaction,
    results: &mut OrderProcessingResult<V::OrderId, V::Price, V::Quantity>,
    id: V::OrderId,
    side: OrderSide,
    order_type: OrderType,
    quantity: V::Quantity,
    opposite_order: &LimitOrder<V::OrderId, V::Asset, V::Price, V::Quantity>,
) -> (r: Result<bool, V::Err>)
    requires
        head(store_of(old(venue), old(tx)).book(side.opposite())) == Some(*opposite_order),
        opposite_order.side == side.opposite(),
    ensures
        same_venue(final(venue), old(venue)),
        reliable(old(venue)) ==> r is Ok,
        r matches Ok(matching_complete) ==> machine_of(final(venue), final(tx), final(results))
            == machine_of(old(venue), old(tx), old(results)).traded(
            id,
            side,
            order_type,
            quantity,
        ) && matching_complete == machine_of(old(venue), old(tx), old(results)).fills(
            side,
            quantity,
        ),
{
    let ghost book = store_of(venue, tx).book(side.opposite());
    proof {
        lemma_trichotomy(quantity, opposite_order.quantity);
        V::Quantity::lemma_leq_total(quantity, opposite_order.quantity);
        lemma_same_reflexive(opposite_order.price);
    }
    let deal_time = venue.current_timestamp_ms();
    if is_below(&quantity, &opposite_order.quantity) {
        // the incoming order is filled, the resting one in part
        results.push(
            Ok(
                MatchingEngineEvent::Filled {
                    id,
                    side,
                    order_type,
                    price: opposite_order.price,
                    quantity,
                    timestamp_ms: deal_time,
                },
            ),
        );
        results.push(
            Ok(
                MatchingEngineEvent::PartiallyFilled {
                    id: opposite_order.id,
                    side: opposite_order.side,
                    order_type: OrderType::Limit,
                    price: opposite_order.price,
                    quantity,
                    timestamp_ms: deal_time,
                },
            ),
        );
        results.set_market_price(opposite_order.price);
        // what is left of the resting order stays where it is
        let new_limit_order = opposite_order.sub_quantity(quantity);
        proof {
            lemma_first(lowest_first(new_limit_order.side), book, new_limit_order);
        }
        update_order(venue, tx, new_limit_order.side, &new_limit_order)?;
        Ok(true)
    } else if is_below(&opposite_order.quantity, &quantity) {
        // the incoming order is filled in part, the resting one is filled
        results.push(
            Ok(
                MatchingEngineEvent::PartiallyFilled {
                    id,
                    side,
                    order_type,
                    price: opposite_order.price,
                    quantity: opposite_order.quantity,
                    timestamp_ms: deal_time,
                },
            ),
        );
        results.push(
            Ok(
                MatchingEngineEvent::Filled {
                    id: opposite_order.id,
                    side: opposite_order.side,
                    order_type: OrderType::Limit,
                    price: opposite_order.price,
                    quantity: opposite_order.quantity,
                    timestamp_ms: deal_time,
                },
            ),
        );
        results.set_market_price(opposite_order.price);
        // the resting order leaves the book
        proof {
            lemma_first(lowest_first(opposite_order.side), book, *opposite_order);
        }
        delete_order(venue, tx, opposite_order.side, &opposite_order.id)?;
        Ok(false)
    } else {
        // both are filled
        results.push(
            Ok(
                MatchingEngineEvent::Filled {
                    id,
                    side,
                    order_type,
                    price: opposite_order.price,
                    quantity,
                    timestamp_ms: deal_time,
                },
            ),
        );
        results.push(
            Ok(
                MatchingEngineEvent::Filled {
                    id: opposite_order.id,
                    side: opposite_order.side,
                    order_type: OrderType::Limit,
                    price: opposite_order.price,
                    quantity: opposite_order.quantity,
                    timestamp_ms: deal_time,
                },
            ),
        );
        results.set_market_price(opposite_order.price);
        // the resting order leaves the book
        proof {
            lemma_first(lowest_first(opposite_order.side), book, *opposite_order);
        }
        delete_order(venue, tx, opposite_order.side, &opposite_order.id)?;
        Ok(true)
    }
}

} // verus!
