use vstd::prelude::*;

verus! {

/// The side of the market an order stands on.
#[derive(Debug, Clone, Copy, Eq, PartialEq)]
pub enum OrderSide {
    /// Buying.
    Bid,
    /// Selling.
    Ask,
}

impl OrderSide {
    /// The side that this side trades with.
    pub open spec fn opposite_spec(self) -> OrderSide {
        match self {
            OrderSide::Bid => OrderSide::Ask,
            OrderSide::Ask => OrderSide::Bid,
        }
    }

    /// The side that this side trades with.
    #[verifier::when_used_as_spec(opposite_spec)]
    pub fn opposite(self) -> (r: OrderSide)
        ensures
            r == self.opposite_spec(),
    {
        match self {
            OrderSide::Bid => OrderSide::Ask,
            OrderSide::Ask => OrderSide::Bid,
        }
    }
}

} // verus!
