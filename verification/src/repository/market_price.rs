use crate::model::price::Price;
use vstd::prelude::*;

verus! {

/// The cell that holds the price of the last trade, seen through a transaction of the
/// caller.
pub trait MarketPriceRepository: Send + Sized {
    type Err;

    type Price: Price;

    type Transaction;

    /// The price in the cell as `tx` sees it; none before the first trade.
    spec fn price(&self, tx: &Self::Transaction) -> Option<Self::Price>;

    /// Whatever `before` holds beside the cell, `after` holds it too.
    spec fn same_elsewhere(&self, before: &Self::Transaction, after: &Self::Transaction) -> bool;

    /// Whether every operation succeeds.
    spec fn reliable(&self) -> bool;

    /// Writes `price` to the cell.
    fn update(&self, tx: &mut Self::Transaction, price: &Self::Price) -> (r: Result<
        (),
        Self::Err,
    >)
        ensures
            self.reliable() ==> r is Ok,
            r is Ok ==> self.same_elsewhere(old(tx), final(tx)),
            r is Ok ==> self.price(final(tx)) == Some(*price),
    ;

    /// Reads the cell.
    fn get(&self, tx: &mut Self::Transaction) -> (r: Result<Option<Self::Price>, Self::Err>)
        ensures
            self.reliable() ==> r is Ok,
            r is Ok ==> self.same_elsewhere(old(tx), final(tx)),
            r matches Ok(price) ==> price == self.price(old(tx)) && self.price(final(tx))
                == self.price(old(tx)),
    ;
}

} // verus!
