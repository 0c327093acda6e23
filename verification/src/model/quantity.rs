use crate::model::total_order::TotalOrder;
use vstd::prelude::*;

verus! {

/// A quantity: a totally ordered value from which a smaller or equal one can be taken.
pub trait Quantity: TotalOrder {
    /// What is left of `self` once `taken` is gone from it. It has a meaning only where
    /// `taken` is at most `self`.
    spec fn minus(self, taken: Self) -> Self;

    /// Takes `taken` from `self`.
    fn take(self, taken: Self) -> (r: Self)
        requires
            taken.leq(self),
        ensures
            r == self.minus(taken),
    ;
}

impl Quantity for u32 {
    open spec fn minus(self, taken: Self) -> Self {
        if taken <= self {
            (self - taken) as u32
        } else {
            0
        }
    }

    fn take(self, taken: Self) -> (r: Self) {
        self - taken
    }
}

impl Quantity for u64 {
    open spec fn minus(self, taken: Self) -> Self {
        if taken <= self {
            (self - taken) as u64
        } else {
            0
        }
    }

    fn take(self, taken: Self) -> (r: Self) {
        self - taken
    }
}

impl Quantity for u128 {
    open spec fn minus(self, taken: Self) -> Self {
        if taken <= self {
            (self - taken) as u128
        } else {
            0
        }
    }

    fn take(self, taken: Self) -> (r: Self) {
        self - taken
    }
}

} // verus!
