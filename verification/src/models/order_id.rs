use crate::model::identity::Identity;
use vstd::prelude::*;
use vstd::std_specs::convert::FromSpecImpl;

verus! {

/// The id of an order: a number.
#[derive(Debug, Clone, Copy, PartialEq, Eq, PartialOrd, Ord)]
pub struct OrderId(u64);

impl View for OrderId {
    type V = u64;

    closed spec fn view(&self) -> u64 {
        self.0
    }
}

impl OrderId {
    pub fn new(value: u64) -> (r: Self)
        ensures
            r@ == value,
    {
        Self(value)
    }

    pub fn value(&self) -> (r: u64)
        ensures
            r == self@,
    {
        self.0
    }
}

impl Identity for OrderId {
    fn same_as(&self, other: &Self) -> (r: bool) {
        self.0 == other.0
    }
}

impl From<u64> for OrderId {
    fn from(value: u64) -> (r: Self)
        ensures
            r@ == value,
    {
        Self(value)
    }
}

impl FromSpecImpl<u64> for OrderId {
    open spec fn obeys_from_spec() -> bool {
        true
    }

    closed spec fn from_spec(value: u64) -> Self {
        Self(value)
    }
}

impl From<OrderId> for u64 {
    fn from(id: OrderId) -> (r: u64) {
        id.0
    }
}

impl FromSpecImpl<OrderId> for u64 {
    open spec fn obeys_from_spec() -> bool {
        true
    }

    open spec fn from_spec(id: OrderId) -> u64 {
        id@
    }
}

} // verus!
