use vstd::prelude::*;

verus! {

/// The kinds of order that the engine knows.
#[derive(Debug, Clone, Copy, Eq, PartialEq)]
pub enum OrderType {
    Market,
    Limit,
    Stop,
    StopLimit,
}

} // verus!
