use crate::model::identity::Identity;
use vstd::prelude::*;

verus! {

/// What names an order. No two orders that the engine sees share one.
pub trait OrderId: Identity {

}

impl<T: Identity> OrderId for T {

}

} // verus!
