use vstd::prelude::*;

verus! {

/// A hundredth of a percent.
pub type BasisPoints = u64;

/// How far a trailing price follows the market, in basis points.
#[derive(Debug, Clone, Copy, Eq, PartialEq)]
pub struct TrailingDelta(BasisPoints);

impl View for TrailingDelta {
    type V = BasisPoints;

    closed spec fn view(&self) -> BasisPoints {
        self.0
    }
}

impl TrailingDelta {
    pub fn new(basis_points: BasisPoints) -> (r: Self)
        ensures
            r@ == basis_points,
    {
        Self(basis_points)
    }

    /// The distance in basis points.
    pub fn basis_points(&self) -> (r: BasisPoints)
        ensures
            r == self@,
    {
        self.0
    }
}

} // verus!
