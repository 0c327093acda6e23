use crate::memory::queue::{dequeue, enqueue, first_of, position_of, replace};
use crate::model::price::Price;
use crate::model::quantity::Quantity;
use crate::models::order_id::OrderId;
use crate::order_queue::elements::LimitOrder;
use crate::order_queue::OrderQueue;
use crate::repository::queue::holds;
use vstd::prelude::*;

verus! {

/// A queue of limit orders in memory: a vector in the order in which the orders are
/// matched. It turns away an order whose id it holds already.
#[derive(Debug, Clone)]
pub struct MemoryOrderQueue<P: Price, Q: Quantity> {
    orders: Vec<LimitOrder<P, Q>>,
    lowest_first: bool,
}

impl<P: Price, Q: Quantity> View for MemoryOrderQueue<P, Q> {
    type V = Seq<LimitOrder<P, Q>>;

    closed spec fn view(&self) -> Seq<LimitOrder<P, Q>> {
        self.orders@
    }
}

impl<P: Price, Q: Quantity> MemoryOrderQueue<P, Q> {
    /// Whether the queue serves its lowest price first.
    pub closed spec fn serves_lowest_first(&self) -> bool {
        self.lowest_first
    }

    /// An empty queue for the asks, which serves its lowest price first.
    pub fn asks() -> (r: Self)
        ensures
            r@ == Seq::<LimitOrder<P, Q>>::empty(),
            r.serves_lowest_first(),
    {
        Self { orders: Vec::new(), lowest_first: true }
    }

    /// An empty queue for the bids, which serves its highest price first.
    pub fn bids() -> (r: Self)
        ensures
            r@ == Seq::<LimitOrder<P, Q>>::empty(),
            !r.serves_lowest_first(),
    {
        Self { orders: Vec::new(), lowest_first: false }
    }

    /// The orders that wait, the one that is matched next first.
    pub fn orders(&self) -> (r: &Vec<LimitOrder<P, Q>>)
        ensures
            r@ == self@,
    {
        &self.orders
    }
}

impl<P: Price, Q: Quantity> OrderQueue for MemoryOrderQueue<P, Q> {
    type Element = LimitOrder<P, Q>;

    open spec fn lowest_first(&self) -> bool {
        self.serves_lowest_first()
    }

    open spec fn waiting(&self) -> Seq<LimitOrder<P, Q>> {
        self@
    }

    open spec fn admits(&self, order: LimitOrder<P, Q>) -> bool {
        !holds(self@, order.order_id)
    }

    fn peek(&mut self) -> (r: Option<&LimitOrder<P, Q>>) {
        if self.orders.len() > 0 {
            Some(&self.orders[0])
        } else {
            None
        }
    }

    fn pop(&mut self) -> (r: Option<LimitOrder<P, Q>>) {
        if self.orders.len() > 0 {
            let first = self.orders.remove(0);
            assert(self.orders@ =~= old(self).orders@.drop_first());
            Some(first)
        } else {
            None
        }
    }

    fn insert(&mut self, order: LimitOrder<P, Q>, timestamp: u64) -> (r: bool) {
        let at = position_of(&self.orders, &order.order_id);
        if at < self.orders.len() {
            false
        } else {
            enqueue(&mut self.orders, self.lowest_first, order);
            true
        }
    }

    fn amend(&mut self, order: LimitOrder<P, Q>, timestamp: u64) -> (r: bool) {
        let found = position_of(&self.orders, &order.order_id) < self.orders.len();
        replace(&mut self.orders, self.lowest_first, order);
        found
    }

    fn remove(&mut self, id: OrderId) -> (r: bool) {
        dequeue(&mut self.orders, &id)
    }

    fn modify_current_order(&mut self, new_order: LimitOrder<P, Q>) -> (r: bool) {
        if self.orders.len() > 0 {
            self.orders.set(0, new_order);
            true
        } else {
            false
        }
    }
}

} // verus!
