use vstd::prelude::*;

verus! {

/// Values that stand in a total order. Two values may be equal in the order without
/// being identical: a decimal with trailing zeros stands for the same number as the
/// one without them.
pub trait TotalOrder: Copy + Sized {
    /// `self` comes before `other` in the order, or is equal to it.
    spec fn leq(self, other: Self) -> bool;

    /// Any two values compare, one way or the other.
    proof fn lemma_leq_total(a: Self, b: Self)
        ensures
            a.leq(b) || b.leq(a),
    ;

    /// What comes before a value comes before everything after that value.
    proof fn lemma_leq_transitive(a: Self, b: Self, c: Self)
        requires
            a.leq(b),
            b.leq(c),
        ensures
            a.leq(c),
    ;

    /// Decides `leq`.
    fn is_at_most(&self, other: &Self) -> (r: bool)
        ensures
            r == self.leq(*other),
    ;
}

/// `a` comes strictly before `b`.
pub open spec fn below<T: TotalOrder>(a: T, b: T) -> bool {
    !b.leq(a)
}

/// `a` and `b` are equal in the order.
pub open spec fn same<T: TotalOrder>(a: T, b: T) -> bool {
    a.leq(b) && b.leq(a)
}

/// Decides `below`.
pub fn is_below<T: TotalOrder>(a: &T, b: &T) -> (r: bool)
    ensures
        r == below(*a, *b),
{
    !b.is_at_most(a)
}

/// Decides `same`.
pub fn is_same<T: TotalOrder>(a: &T, b: &T) -> (r: bool)
    ensures
        r == same(*a, *b),
{
    a.is_at_most(b) && b.is_at_most(a)
}

/// Every value is equal to itself in the order.
pub proof fn lemma_same_reflexive<T: TotalOrder>(a: T)
    ensures
        same(a, a),
{
    T::lemma_leq_total(a, a);
}

/// Of two values, exactly one of these holds: the first is below the second, they are
/// the same, or the second is below the first.
pub proof fn lemma_trichotomy<T: TotalOrder>(a: T, b: T)
    ensures
        below(a, b) || same(a, b) || below(b, a),
        !(below(a, b) && same(a, b)),
        !(below(b, a) && same(a, b)),
        !(below(a, b) && below(b, a)),
{
    T::lemma_leq_total(a, b);
}

/// `below` carries over a value in the middle, also where one of the two steps is
/// only `leq`.
pub proof fn lemma_below_transitive<T: TotalOrder>(a: T, b: T, c: T)
    ensures
        below(a, b) && b.leq(c) ==> below(a, c),
        a.leq(b) && below(b, c) ==> below(a, c),
{
    T::lemma_leq_total(a, b);
    T::lemma_leq_total(b, c);
    T::lemma_leq_total(a, c);
    if below(a, b) && b.leq(c) && c.leq(a) {
        T::lemma_leq_transitive(b, c, a);
    }
    if a.leq(b) && below(b, c) && c.leq(a) {
        T::lemma_leq_transitive(c, a, b);
    }
}

impl TotalOrder for u32 {
    open spec fn leq(self, other: Self) -> bool {
        self <= other
    }

    proof fn lemma_leq_total(a: Self, b: Self) {
    }

    proof fn lemma_leq_transitive(a: Self, b: Self, c: Self) {
    }

    fn is_at_most(&self, other: &Self) -> (r: bool) {
        *self <= *other
    }
}

impl TotalOrder for u64 {
    open spec fn leq(self, other: Self) -> bool {
        self <= other
    }

    proof fn lemma_leq_total(a: Self, b: Self) {
    }

    proof fn lemma_leq_transitive(a: Self, b: Self, c: Self) {
    }

    fn is_at_most(&self, other: &Self) -> (r: bool) {
        *self <= *other
    }
}

impl TotalOrder for u128 {
    open spec fn leq(self, other: Self) -> bool {
        self <= other
    }

    proof fn lemma_leq_total(a: Self, b: Self) {
    }

    proof fn lemma_leq_transitive(a: Self, b: Self, c: Self) {
    }

    fn is_at_most(&self, other: &Self) -> (r: bool) {
        *self <= *other
    }
}

} // verus!
