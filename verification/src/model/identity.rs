use vstd::prelude::*;

verus! {

/// Values that are told apart by looking at them: two of them are the same exactly
/// when they are identical.
pub trait Identity: Copy + Sized {
    /// Decides whether `self` and `other` are identical.
    fn same_as(&self, other: &Self) -> (r: bool)
        ensures
            r == (*self == *other),
    ;
}

impl Identity for u8 {
    fn same_as(&self, other: &Self) -> (r: bool) {
        *self == *other
    }
}

impl Identity for u32 {
    fn same_as(&self, other: &Self) -> (r: bool) {
        *self == *other
    }
}

impl Identity for u64 {
    fn same_as(&self, other: &Self) -> (r: bool) {
        *self == *other
    }
}

impl Identity for u128 {
    fn same_as(&self, other: &Self) -> (r: bool) {
        *self == *other
    }
}

impl Identity for char {
    fn same_as(&self, other: &Self) -> (r: bool) {
        *self == *other
    }
}

} // verus!
