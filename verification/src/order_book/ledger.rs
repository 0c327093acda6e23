use crate::matching_engine::machine::overlaps;
use crate::model::asset::Asset;
use crate::model::order_side::OrderSide;
use crate::model::order_type::OrderType;
use crate::model::price::Price;
use crate::model::quantity::Quantity;
use crate::model::total_order::below;
use crate::models::order::Order;
use crate::models::order_id::OrderId;
use crate::order_book::failure::OrderBookFailure;
use crate::order_book::output::OrderBookOutput;
use crate::order_queue::elements::LimitOrder;
use crate::order_queue::OrderQueue;
use crate::repository::limit_order::lowest_first;
use crate::repository::queue::{enqueued, holds, replaced, without};
use vstd::prelude::*;

verus! {

/// One entry of what the order book reports of an order.
pub type Entry<P, Q> = Result<OrderBookOutput<P, Q>, OrderBookFailure>;

/// All that the order book works on while it serves one order, as plain values: the
/// two queues, what has been reported so far, and the clock.
pub struct Ledger<P: Price, Q: Quantity> {
    /// The bids that wait, highest price first.
    pub bids: Seq<LimitOrder<P, Q>>,
    /// The asks that wait, lowest price first.
    pub asks: Seq<LimitOrder<P, Q>>,
    /// What has been reported so far.
    pub results: Seq<Entry<P, Q>>,
    /// What the clock reads at its first reading, at its second, and so on.
    pub timeline: spec_fn(nat) -> u64,
    /// How many readings of the clock have been taken.
    pub ticks: nat,
}

impl<P: Price, Q: Quantity> Ledger<P, Q> {
    /// The queue of `side`.
    pub open spec fn queue(self, side: OrderSide) -> Seq<LimitOrder<P, Q>> {
        match side {
            OrderSide::Bid => self.bids,
            OrderSide::Ask => self.asks,
        }
    }

    /// The ledger with `orders` as the queue of `side`.
    pub open spec fn with_queue(self, side: OrderSide, orders: Seq<LimitOrder<P, Q>>) -> Self {
        match side {
            OrderSide::Bid => Ledger { bids: orders, ..self },
            OrderSide::Ask => Ledger { asks: orders, ..self },
        }
    }

    /// What the clock reads next.
    pub open spec fn now(self) -> u64 {
        (self.timeline)(self.ticks)
    }

    /// The ledger after a reading of the clock.
    pub open spec fn ticked(self) -> Self {
        Ledger { ticks: self.ticks + 1, ..self }
    }

    /// The ledger after `entry` was reported.
    pub open spec fn reported(self, entry: Entry<P, Q>) -> Self {
        Ledger { results: self.results.push(entry), ..self }
    }

    /// The ledger after an order of `side` for `quantity` traded with the order that is
    /// first in the opposite queue, at that order's price. Both sides report the trade,
    /// the incoming order first, with one reading of the clock. The smaller of the two
    /// orders is filled, and the waiting one leaves the queue if it is.
    pub open spec fn traded(
        self,
        id: OrderId,
        side: OrderSide,
        order_type: OrderType,
        quantity: Q,
    ) -> Self
        recommends
            self.queue(side.opposite()).len() > 0,
    {
        let queue = self.queue(side.opposite());
        let top = queue[0];
        let at = self.now();
        if below(top.quantity, quantity) {
            self.ticked().reported(
                Ok(
                    OrderBookOutput::PartiallyFilled {
                        id,
                        side,
                        order_type,
                        price: top.price,
                        quantity: top.quantity,
                        timestamp: at,
                    },
                ),
            ).reported(
                Ok(
                    OrderBookOutput::Filled {
                        id: top.order_id,
                        side: side.opposite(),
                        order_type: OrderType::Limit,
                        price: top.price,
                        quantity: top.quantity,
                        timestamp: at,
                    },
                ),
            ).with_queue(side.opposite(), queue.drop_first())
        } else if below(quantity, top.quantity) {
            self.ticked().reported(
                Ok(
                    OrderBookOutput::Filled {
                        id,
                        side,
                        order_type,
                        price: top.price,
                        quantity,
                        timestamp: at,
                    },
                ),
            ).reported(
                Ok(
                    OrderBookOutput::PartiallyFilled {
                        id: top.order_id,
                        side: side.opposite(),
                        order_type: OrderType::Limit,
                        price: top.price,
                        quantity,
                        timestamp: at,
                    },
                ),
            ).with_queue(
                side.opposite(),
                queue.update(
                    0,
                    LimitOrder {
                        order_id: top.order_id,
                        price: top.price,
                        quantity: top.quantity.minus(quantity),
                    },
                ),
            )
        } else {
            self.ticked().reported(
                Ok(
                    OrderBookOutput::Filled {
                        id,
                        side,
                        order_type,
                        price: top.price,
                        quantity,
                        timestamp: at,
                    },
                ),
            ).reported(
                Ok(
                    OrderBookOutput::Filled {
                        id: top.order_id,
                        side: side.opposite(),
                        order_type: OrderType::Limit,
                        price: top.price,
                        quantity: top.quantity,
                        timestamp: at,
                    },
                ),
            ).with_queue(side.opposite(), queue.drop_first())
        }
    }

    /// Whether the order that is first in the queue opposite to `side` fills an order
    /// for `quantity`.
    pub open spec fn fills(self, side: OrderSide, quantity: Q) -> bool
        recommends
            self.queue(side.opposite()).len() > 0,
    {
        !below(self.queue(side.opposite())[0].quantity, quantity)
    }

    /// The ledger after a market order took from the opposite queue what it could.
    pub open spec fn market_matched(self, id: OrderId, side: OrderSide, quantity: Q) -> Self
        decreases self.queue(side.opposite()).len(),
    {
        let queue = self.queue(side.opposite());
        if queue.len() == 0 {
            self.reported(Err(OrderBookFailure::NoMatch(id)))
        } else {
            let after = self.traded(id, side, OrderType::Market, quantity);
            if self.fills(side, quantity) {
                after
            } else {
                after.market_matched(id, side, quantity.minus(queue[0].quantity))
            }
        }
    }

    /// The ledger after `order` was offered to the queue of `side`, which is `own`: it
    /// joins the queue, or the queue turns it away, which is reported.
    pub open spec fn rested<LQ: OrderQueue<Element = LimitOrder<P, Q>>>(
        self,
        order: LimitOrder<P, Q>,
        side: OrderSide,
        own: LQ,
    ) -> Self {
        if own.admits(order) {
            self.with_queue(side, enqueued(lowest_first(side), self.queue(side), order))
        } else {
            self.reported(Err(OrderBookFailure::FailedToEnqueueOrder(order.order_id)))
        }
    }

    /// Whether a limit order of `side` at `price` can trade with the first order of the
    /// opposite queue.
    pub open spec fn crosses(self, side: OrderSide, price: P) -> bool {
        let queue = self.queue(side.opposite());
        queue.len() > 0 && overlaps(side, price, queue[0].price)
    }

    /// The ledger after a limit order traded with the opposite queue as far as the
    /// prices overlap, and what was left of it was offered to the queue of its side,
    /// which is `own`.
    pub open spec fn limit_matched<LQ: OrderQueue<Element = LimitOrder<P, Q>>>(
        self,
        order: LimitOrder<P, Q>,
        side: OrderSide,
        own: LQ,
    ) -> Self
        decreases self.queue(side.opposite()).len(),
    {
        let queue = self.queue(side.opposite());
        if !self.crosses(side, order.price) {
            self.rested(order, side, own)
        } else {
            let after = self.traded(order.order_id, side, OrderType::Limit, order.quantity);
            if self.fills(side, order.quantity) {
                after
            } else {
                after.limit_matched(
                    LimitOrder { quantity: order.quantity.minus(queue[0].quantity), ..order },
                    side,
                    own,
                )
            }
        }
    }

    /// The ledger after a request to change the price and the quantity of a waiting
    /// limit order. A request that aims at another kind of order does nothing.
    pub open spec fn amended(
        self,
        id: OrderId,
        target_id: OrderId,
        target_order_type: OrderType,
        side: OrderSide,
        price: P,
        quantity: Q,
    ) -> Self {
        let queue = self.queue(side);
        if target_order_type != OrderType::Limit {
            self
        } else if holds(queue, target_id) {
            self.with_queue(
                side,
                replaced(
                    lowest_first(side),
                    queue,
                    LimitOrder { order_id: target_id, price, quantity },
                ),
            ).ticked().reported(
                Ok(
                    OrderBookOutput::Amended {
                        id,
                        target_id,
                        price,
                        quantity,
                        timestamp: self.now(),
                    },
                ),
            )
        } else {
            self.reported(
                Err(OrderBookFailure::OrderNotFound { order_id: id, target_order_id: target_id }),
            )
        }
    }

    /// The ledger after a request to take a waiting limit order out of its queue. A
    /// request that aims at another kind of order does nothing.
    pub open spec fn cancelled(
        self,
        id: OrderId,
        target_id: OrderId,
        target_order_type: OrderType,
        side: OrderSide,
    ) -> Self {
        let queue = self.queue(side);
        if target_order_type != OrderType::Limit {
            self
        } else if holds(queue, target_id) {
            self.with_queue(side, without(queue, target_id)).ticked().reported(
                Ok(OrderBookOutput::Cancelled { id, target_id, timestamp: self.now() }),
            )
        } else {
            self.reported(
                Err(OrderBookFailure::OrderNotFound { order_id: id, target_order_id: target_id }),
            )
        }
    }

    /// The ledger after the whole of `order`: a market or a limit order is accepted and
    /// matched, a change or a cancellation is carried out. `bids` and `asks` are the two
    /// queues as they are when the order comes in.
    pub open spec fn processed<A: Asset, LQ: OrderQueue<Element = LimitOrder<P, Q>>>(
        self,
        order: Order<A, P, Q>,
        bids: LQ,
        asks: LQ,
    ) -> Self {
        let at = self.now();
        match order {
            Order::Market { id, side, quantity, .. } => self.ticked().reported(
                Ok(
                    OrderBookOutput::Accepted {
                        id,
                        order_type: OrderType::Market,
                        timestamp: at,
                    },
                ),
            ).market_matched(id, side, quantity),
            Order::Limit { id, side, price, quantity, .. } => self.ticked().reported(
                Ok(OrderBookOutput::Accepted { id, order_type: OrderType::Limit, timestamp: at }),
            ).limit_matched(
                LimitOrder { order_id: id, price, quantity },
                side,
                match side {
                    OrderSide::Bid => bids,
                    OrderSide::Ask => asks,
                },
            ),
            Order::Amend { id, target_id, target_order_type, side, price, quantity, .. } => {
                self.amended(id, target_id, target_order_type, side, price, quantity)
            },
            Order::Cancel { id, target_id, target_order_type, side } => self.cancelled(
                id,
                target_id,
                target_order_type,
                side,
            ),
        }
    }
}

} // verus!
