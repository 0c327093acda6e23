//! A queue of limit orders of one side, best price first and, at one price, first come
//! first served.
pub mod elements;

use crate::models::order_id::OrderId;
use crate::repository::queue::{enqueued, head, holds, replaced, without, Queued};
use vstd::prelude::*;

verus! {

/// The orders of one side that wait to be matched.
pub trait OrderQueue: Sized {
    type Element: Queued<Id = OrderId>;

    /// Whether the queue serves its lowest price first, as the asks do, or its highest,
    /// as the bids do.
    spec fn lowest_first(&self) -> bool;

    /// The orders that wait, the one that is matched next first.
    spec fn waiting(&self) -> Seq<Self::Element>;

    /// Whether the queue would take `order` in. A queue may turn an order away, say one
    /// whose id it holds already.
    spec fn admits(&self, order: Self::Element) -> bool;

    /// The order that is matched next.
    fn peek(&mut self) -> (r: Option<&Self::Element>)
        ensures
            r matches Some(first) ==> head(old(self).waiting()) == Some(*first),
            r is None ==> old(self).waiting().len() == 0,
            final(self).waiting() == old(self).waiting(),
            final(self).lowest_first() == old(self).lowest_first(),
    ;

    /// Takes the order that is matched next out of the queue.
    fn pop(&mut self) -> (r: Option<Self::Element>)
        ensures
            r == head(old(self).waiting()),
            final(self).waiting() == if old(self).waiting().len() > 0 {
                old(self).waiting().drop_first()
            } else {
                old(self).waiting()
            },
            final(self).lowest_first() == old(self).lowest_first(),
    ;

    /// Lets `order` join the queue behind the orders of its price, and says whether it
    /// was taken in.
    fn insert(&mut self, order: Self::Element, timestamp: u64) -> (r: bool)
        ensures
            r == old(self).admits(order),
            final(self).waiting() == if r {
                enqueued(old(self).lowest_first(), old(self).waiting(), order)
            } else {
                old(self).waiting()
            },
            final(self).lowest_first() == old(self).lowest_first(),
    ;

    /// Puts `order` in the place of the waiting order with its id, and says whether
    /// there was one. At the same price the order keeps its place.
    fn amend(&mut self, order: Self::Element, timestamp: u64) -> (r: bool)
        ensures
            r == holds(old(self).waiting(), order.queue_id()),
            final(self).waiting() == replaced(
                old(self).lowest_first(),
                old(self).waiting(),
                order,
            ),
            final(self).lowest_first() == old(self).lowest_first(),
    ;

    /// Takes the order with `id` out of the queue, and says whether there was one.
    fn remove(&mut self, id: OrderId) -> (r: bool)
        ensures
            r == holds(old(self).waiting(), id),
            final(self).waiting() == without(old(self).waiting(), id),
            final(self).lowest_first() == old(self).lowest_first(),
    ;

    /// Puts `new_order` in the place of the order that is matched next, and says
    /// whether there was one.
    fn modify_current_order(&mut self, new_order: Self::Element) -> (r: bool)
        ensures
            r == (old(self).waiting().len() > 0),
            final(self).waiting() == if r {
                old(self).waiting().update(0, new_order)
            } else {
                old(self).waiting()
            },
            final(self).lowest_first() == old(self).lowest_first(),
    ;
}

} // verus!
