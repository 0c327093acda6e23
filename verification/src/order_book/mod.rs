//! An order book over two queues of limit orders: it matches market and limit orders
//! by price and time, and changes and cancels the orders that wait.
pub mod failure;
pub mod ledger;
pub mod output;

use crate::model::asset::Asset;
use crate::model::asset_pair::AssetPair;
use crate::model::clock::Clock;
use crate::model::order_side::OrderSide;
use crate::model::order_type::OrderType;
use crate::model::price::Price;
use crate::model::quantity::Quantity;
use crate::model::total_order::{is_below, lemma_trichotomy, TotalOrder};
use crate::models::order::Order;
use crate::models::order_id::OrderId;
use crate::order_book::failure::OrderBookFailure;
use crate::order_book::ledger::{Entry, Ledger};
use crate::order_book::output::OrderBookOutput;
use crate::order_queue::elements::{LimitOrder, MarketOrder};
use crate::order_queue::OrderQueue;
use crate::repository::queue::head;
use vstd::prelude::*;

verus! {

/// What the order book hands back for an order.
pub type OrderProcessingResult<P, Q> = Vec<Entry<P, Q>>;

/// The order book of one asset pair.
#[verifier::reject_recursive_types(P)]
#[verifier::reject_recursive_types(Q)]
pub struct OrderBook<
    A: Asset,
    P: Price,
    Q: Quantity,
    LQ: OrderQueue<Element = LimitOrder<P, Q>>,
    C: Clock,
> {
    asset_pair: AssetPair<A>,
    bid_limit_queue: LQ,
    ask_limit_queue: LQ,
    clock: C,
}

impl<A: Asset, P: Price, Q: Quantity, LQ: OrderQueue<Element = LimitOrder<P, Q>>, C: Clock> OrderBook<
    A,
    P,
    Q,
    LQ,
    C,
> {
    /// The asset pair that the book trades.
    pub closed spec fn pair(&self) -> AssetPair<A> {
        self.asset_pair
    }

    /// The queue of `side`.
    pub closed spec fn queue(&self, side: OrderSide) -> LQ {
        match side {
            OrderSide::Bid => self.bid_limit_queue,
            OrderSide::Ask => self.ask_limit_queue,
        }
    }

    /// The clock of the book.
    pub closed spec fn clock(&self) -> C {
        self.clock
    }

    /// The bids serve their highest price first, the asks their lowest.
    pub open spec fn well_formed(&self) -> bool {
        !self.queue(OrderSide::Bid).lowest_first() && self.queue(OrderSide::Ask).lowest_first()
    }

    /// All that the book works on: its queues, the `results` of the order in hand, and
    /// its clock.
    pub open spec fn ledger(&self, results: Seq<Entry<P, Q>>) -> Ledger<P, Q> {
        Ledger {
            bids: self.queue(OrderSide::Bid).waiting(),
            asks: self.queue(OrderSide::Ask).waiting(),
            results,
            timeline: self.clock().timeline(),
            ticks: self.clock().ticks(),
        }
    }

    /// A book for `asset_pair` over the two queues, run by `clock`.
    pub fn new(asset_pair: AssetPair<A>, bid_limit_queue: LQ, ask_limit_queue: LQ, clock: C) -> (r:
        Self)
        requires
            !bid_limit_queue.lowest_first(),
            ask_limit_queue.lowest_first(),
        ensures
            r.well_formed(),
            r.pair() == asset_pair,
            r.queue(OrderSide::Bid) == bid_limit_queue,
            r.queue(OrderSide::Ask) == ask_limit_queue,
            r.clock() == clock,
    {
        Self { asset_pair, bid_limit_queue, ask_limit_queue, clock }
    }

    /// The queue of the bids.
    pub fn bid_limit_queue(&self) -> (r: &LQ)
        ensures
            *r == self.queue(OrderSide::Bid),
    {
        &self.bid_limit_queue
    }

    /// The queue of the asks.
    pub fn ask_limit_queue(&self) -> (r: &LQ)
        ensures
            *r == self.queue(OrderSide::Ask),
    {
        &self.ask_limit_queue
    }

    /// The clock, to set it.
    pub fn clock_mut(&mut self) -> (r: &mut C)
        ensures
            *r == old(self).clock(),
            final(self).clock() == *final(r),
            final(self).pair() == old(self).pair(),
            final(self).queue(OrderSide::Bid) == old(self).queue(OrderSide::Bid),
            final(self).queue(OrderSide::Ask) == old(self).queue(OrderSide::Ask),
    {
        &mut self.clock
    }

    /// Deals with one order and hands back what happened, in the order in which it
    /// happened.
    pub fn process_order(&mut self, order: Order<A, P, Q>) -> (r: OrderProcessingResult<P, Q>)
        requires
            old(self).well_formed(),
            order matches Order::Market { asset_pair, .. } ==> asset_pair == old(self).pair(),
            order matches Order::Limit { asset_pair, .. } ==> asset_pair == old(self).pair(),
            order matches Order::Amend { target_order_type, .. } ==> target_order_type
                == OrderType::Limit,
            order matches Order::Cancel { target_order_type, .. } ==> target_order_type
                == OrderType::Limit,
        ensures
            final(self).well_formed(),
            final(self).pair() == old(self).pair(),
            final(self).ledger(r@) == old(self).ledger(Seq::empty()).processed(
                order,
                old(self).queue(OrderSide::Bid),
                old(self).queue(OrderSide::Ask),
            ),
    {
        let mut proc_result: OrderProcessingResult<P, Q> = Vec::new();
        match order {
            Order::Market { id, asset_pair, side, quantity, timestamp } => {
                let now = self.clock.now_ms();
                proc_result.push(
                    Ok(
                        OrderBookOutput::Accepted {
                            id,
                            order_type: OrderType::Market,
                            timestamp: now,
                        },
                    ),
                );
                self.process_market_order(&mut proc_result, id, side, quantity, timestamp);
            },
            Order::Limit { id, asset_pair, side, price, quantity, timestamp } => {
                let now = self.clock.now_ms();
                proc_result.push(
                    Ok(
                        OrderBookOutput::Accepted {
                            id,
                            order_type: OrderType::Limit,
                            timestamp: now,
                        },
                    ),
                );
                self.process_limit_order(&mut proc_result, id, side, price, quantity, timestamp);
            },
            Order::Amend { id, target_id, target_order_type, side, price, quantity, timestamp } => {
                self.process_amend_order(
                    &mut proc_result,
                    id,
                    target_id,
                    target_order_type,
                    side,
                    price,
                    quantity,
                    timestamp,
                );
            },
            Order::Cancel { id, target_id, target_order_type, side } => {
                self.process_cancel_order(&mut proc_result, id, target_id, target_order_type, side);
            },
        }
        proc_result
    }

    /// Matches a market order against the opposite queue until it is filled or the
    /// queue is empty.
    fn process_market_order(
        &mut self,
        results: &mut OrderProcessingResult<P, Q>,
        order_id: OrderId,
        side: OrderSide,
        quantity: Q,
        timestamp: u64,
    )
        requires
            old(self).well_formed(),
        ensures
            final(self).well_formed(),
            final(self).pair() == old(self).pair(),
            final(self).queue(side) == old(self).queue(side),
            final(self).ledger(final(results)@) == old(self).ledger(old(results)@).market_matched(
                order_id,
                side,
                quantity,
            ),
        decreases old(self).queue(side.opposite()).waiting().len(),
    {
        let order = MarketOrder { order_id, quantity };
        let opposite_order = match match side {
            OrderSide::Bid => self.ask_limit_queue.peek(),
            OrderSide::Ask => self.bid_limit_queue.peek(),
        } {
            Some(first) => Some(*first),
            None => None,
        };
        if let Some(opposite_order) = opposite_order {
            let matching_complete = self.match_market_order_with_limit_order(
                results,
                &order,
                &opposite_order,
                side,
            );
            if !matching_complete {
                proof {
                    Q::lemma_leq_total(opposite_order.quantity, quantity);
                }
                self.process_market_order(
                    results,
                    order_id,
                    side,
                    quantity.take(opposite_order.quantity),
                    timestamp,
                );
            }
        } else {
            results.push(Err(OrderBookFailure::NoMatch(order_id)));
        }
    }

    /// Matches a limit order against the opposite queue as far as the prices overlap,
    /// and offers what is left of it to the queue of its side.
    fn process_limit_order(
        &mut self,
        results: &mut OrderProcessingResult<P, Q>,
        order_id: OrderId,
        side: OrderSide,
        price: P,
        quantity: Q,
        timestamp: u64,
    )
        requires
            old(self).well_formed(),
        ensures
            final(self).well_formed(),
            final(self).pair() == old(self).pair(),
            final(self).ledger(final(results)@) == old(self).ledger(old(results)@).limit_matched(
                LimitOrder { order_id, price, quantity },
                side,
                old(self).queue(side),
            ),
        decreases old(self).queue(side.opposite()).waiting().len(),
    {
        let order = LimitOrder { order_id, price, quantity };
        let opposite_order = match match side {
            OrderSide::Bid => self.ask_limit_queue.peek(),
            OrderSide::Ask => self.bid_limit_queue.peek(),
        } {
            Some(first) => Some(*first),
            None => None,
        };
        if let Some(opposite_order) = opposite_order {
            let could_be_matched = match side {
                // the prices of the bid and of the ask have to overlap
                OrderSide::Bid => opposite_order.price.is_at_most(&price),
                OrderSide::Ask => price.is_at_most(&opposite_order.price),
            };
            if could_be_matched {
                let matching_complete = self.match_limit_order_with_limit_order(
                    results,
                    &order,
                    &opposite_order,
                    side,
                );
                if !matching_complete {
                    proof {
                        Q::lemma_leq_total(opposite_order.quantity, quantity);
                    }
                    self.process_limit_order(
                        results,
                        order_id,
                        side,
                        price,
                        quantity.take(opposite_order.quantity),
                        timestamp,
                    );
                }
            } else {
                self.store_new_limit_order(results, order, side, timestamp);
            }
        } else {
            self.store_new_limit_order(results, order, side, timestamp);
        }
    }

    /// Changes the price and the quantity of a waiting limit order.
    fn process_amend_order(
        &mut self,
        results: &mut OrderProcessingResult<P, Q>,
        order_id: OrderId,
        target_order_id: OrderId,
        target_order_type: OrderType,
        side: OrderSide,
        price: P,
        quantity: Q,
        timestamp: u64,
    )
        requires
            old(self).well_formed(),
        ensures
            final(self).well_formed(),
            final(self).pair() == old(self).pair(),
            final(self).ledger(final(results)@) == old(self).ledger(old(results)@).amended(
                order_id,
                target_order_id,
                target_order_type,
                side,
                price,
                quantity,
            ),
    {
        match target_order_type {
            OrderType::Limit => {
                let order = LimitOrder { order_id: target_order_id, price, quantity };
                if match side {
                    OrderSide::Bid => self.bid_limit_queue.amend(order, timestamp),
                    OrderSide::Ask => self.ask_limit_queue.amend(order, timestamp),
                } {
                    let now = self.clock.now_ms();
                    results.push(
                        Ok(
                            OrderBookOutput::Amended {
                                id: order_id,
                                target_id: target_order_id,
                                price,
                                quantity,
                                timestamp: now,
                            },
                        ),
                    );
                } else {
                    results.push(
                        Err(OrderBookFailure::OrderNotFound { order_id, target_order_id }),
                    );
                }
            },
            _ => {},
        }
    }

    /// Takes a waiting limit order out of its queue.
    fn process_cancel_order(
        &mut self,
        results: &mut OrderProcessingResult<P, Q>,
        order_id: OrderId,
        target_order_id: OrderId,
        target_order_type: OrderType,
        side: OrderSide,
    )
        requires
            old(self).well_formed(),
        ensures
            final(self).well_formed(),
            final(self).pair() == old(self).pair(),
            final(self).ledger(final(results)@) == old(self).ledger(old(results)@).cancelled(
                order_id,
                target_order_id,
                target_order_type,
                side,
            ),
    {
        match target_order_type {
            OrderType::Limit => {
                if match side {
                    OrderSide::Bid => self.bid_limit_queue.remove(target_order_id),
                    OrderSide::Ask => self.ask_limit_queue.remove(target_order_id),
                } {
                    let now = self.clock.now_ms();
                    results.push(
                        Ok(
                            OrderBookOutput::Cancelled {
                                id: order_id,
                                target_id: target_order_id,
                                timestamp: now,
                            },
                        ),
                    );
                } else {
                    results.push(
                        Err(OrderBookFailure::OrderNotFound { order_id, target_order_id }),
                    );
                }
            },
            _ => {},
        }
    }

    /// Offers a limit order to the queue of its side, and reports it if the queue
    /// turns it away.
    fn store_new_limit_order(
        &mut self,
        results: &mut OrderProcessingResult<P, Q>,
        order: LimitOrder<P, Q>,
        side: OrderSide,
        timestamp: u64,
    )
        requires
            old(self).well_formed(),
        ensures
            final(self).well_formed(),
            final(self).pair() == old(self).pair(),
            final(self).ledger(final(results)@) == old(self).ledger(old(results)@).rested(
                order,
                side,
                old(self).queue(side),
            ),
    {
        let order_id = order.order_id;
        if !match side {
            OrderSide::Bid => self.bid_limit_queue.insert(order, timestamp),
            OrderSide::Ask => self.ask_limit_queue.insert(order, timestamp),
        } {
            results.push(Err(OrderBookFailure::FailedToEnqueueOrder(order_id)))
        }
    }

    /// Lets a market order trade with the first order of the opposite queue, and says
    /// whether that filled it.
    fn match_market_order_with_limit_order(
        &mut self,
        results: &mut OrderProcessingResult<P, Q>,
        order: &MarketOrder<Q>,
        opposite_order: &LimitOrder<P, Q>,
        side: OrderSide,
    ) -> (r: bool)
        requires
            old(self).well_formed(),
            head(old(self).queue(side.opposite()).waiting()) == Some(*opposite_order),
        ensures
            final(self).well_formed(),
            final(self).pair() == old(self).pair(),
            final(self).queue(side) == old(self).queue(side),
            final(self).ledger(final(results)@) == old(self).ledger(old(results)@).traded(
                order.order_id,
                side,
                OrderType::Market,
                order.quantity,
            ),
            r == old(self).ledger(old(results)@).fills(side, order.quantity),
    {
        self.trade(results, order.order_id, OrderType::Market, order.quantity, opposite_order, side)
    }

    /// Lets a limit order trade with the first order of the opposite queue, and says
    /// whether that filled it.
    fn match_limit_order_with_limit_order(
        &mut self,
        results: &mut OrderProcessingResult<P, Q>,
        order: &LimitOrder<P, Q>,
        opposite_order: &LimitOrder<P, Q>,
        side: OrderSide,
    ) -> (r: bool)
        requires
            old(self).well_formed(),
            head(old(self).queue(side.opposite()).waiting()) == Some(*opposite_order),
        ensures
            final(self).well_formed(),
            final(self).pair() == old(self).pair(),
            final(self).queue(side) == old(self).queue(side),
            final(self).ledger(final(results)@) == old(self).ledger(old(results)@).traded(
                order.order_id,
                side,
                OrderType::Limit,
                order.quantity,
            ),
            r == old(self).ledger(old(results)@).fills(side, order.quantity),
    {
        self.trade(results, order.order_id, OrderType::Limit, order.quantity, opposite_order, side)
    }

    /// One trade between an incoming order and the first order of the opposite queue.
    fn trade(
        &mut self,
        results: &mut OrderProcessingResult<P, Q>,
        id: OrderId,
        order_type: OrderType,
        quantity: Q,
        opposite_order: &LimitOrder<P, Q>,
        side: OrderSide,
    ) -> (r: bool)
        requires
            old(self).well_formed(),
            head(old(self).queue(side.opposite()).waiting()) == Some(*opposite_order),
        ensures
            final(self).well_formed(),
            final(self).pair() == old(self).pair(),
            final(self).queue(side) == old(self).queue(side),
            final(self).ledger(final(results)@) == old(self).ledger(old(results)@).traded(
                id,
                side,
                order_type,
                quantity,
            ),
            r == old(self).ledger(old(results)@).fills(side, quantity),
    {
        proof {
            lemma_trichotomy(quantity, opposite_order.quantity);
            Q::lemma_leq_total(quantity, opposite_order.quantity);
        }
        let deal_time = self.clock.now_ms();
        if is_below(&quantity, &opposite_order.quantity) {
            // the incoming order is filled, the waiting one in part
            results.push(
                Ok(
                    OrderBookOutput::Filled {
                        id,
                        side,
                        order_type,
                        price: opposite_order.price,
                        quantity,
                        timestamp: deal_time,
                    },
                ),
            );
            results.push(
                Ok(
                    OrderBookOutput::PartiallyFilled {
                        id: opposite_order.order_id,
                        side: side.opposite(),
                        order_type: OrderType::Limit,
                        price: opposite_order.price,
                        quantity,
                        timestamp: deal_time,
                    },
                ),
            );
            // what is left of the waiting order stays where it is
            let new_limit_order = LimitOrder {
                order_id: opposite_order.order_id,
                price: opposite_order.price,
                quantity: opposite_order.quantity.take(quantity),
            };
            match side {
                OrderSide::Bid => self.ask_limit_queue.modify_current_order(new_limit_order),
                OrderSide::Ask => self.bid_limit_queue.modify_current_order(new_limit_order),
            };
            true
        } else if is_below(&opposite_order.quantity, &quantity) {
            // the incoming order is filled in part, the waiting one is filled
            results.push(
                Ok(
                    OrderBookOutput::PartiallyFilled {
                        id,
                        side,
                        order_type,
                        price: opposite_order.price,
                        quantity: opposite_order.quantity,
                        timestamp: deal_time,
                    },
                ),
            );
            results.push(
                Ok(
                    OrderBookOutput::Filled {
                        id: opposite_order.order_id,
                        side: side.opposite(),
                        order_type: OrderType::Limit,
                        price: opposite_order.price,
                        quantity: opposite_order.quantity,
                        timestamp: deal_time,
                    },
                ),
            );
            // the waiting order leaves the queue
            match side {
                OrderSide::Bid => self.ask_limit_queue.pop(),
                OrderSide::Ask => self.bid_limit_queue.pop(),
            };
            false
        } else {
            // both are filled
            results.push(
                Ok(
                    OrderBookOutput::Filled {
                        id,
                        side,
                        order_type,
                        price: opposite_order.price,
                        quantity,
                        timestamp: deal_time,
                    },
                ),
            );
            results.push(
                Ok(
                    OrderBookOutput::Filled {
                        id: opposite_order.order_id,
                        side: side.opposite(),
                        order_type: OrderType::Limit,
                        price: opposite_order.price,
                        quantity: opposite_order.quantity,
                        timestamp: deal_time,
                    },
                ),
            );
            // the waiting order leaves the queue
            match side {
                OrderSide::Bid => self.ask_limit_queue.pop(),
                OrderSide::Ask => self.bid_limit_queue.pop(),
            };
            true
        }
    }
}

} // verus!
