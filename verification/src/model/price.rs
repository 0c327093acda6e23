use crate::model::total_order::TotalOrder;
use vstd::prelude::*;

verus! {

/// A price: any totally ordered value that can be copied. Prices that stand for the
/// same number are equal in the order whatever their scale.
pub trait Price: TotalOrder {

}

impl<T: TotalOrder> Price for T {

}

} // verus!
