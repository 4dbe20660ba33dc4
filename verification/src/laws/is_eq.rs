//! The two sides of an equation.
use vstd::prelude::*;
use vstd::std_specs::cmp::PartialEqSpec;

verus! {

/// Two values that a law says are equal.
pub struct IsEq<T> {
    /// The left side.
    pub lhs: T,
    /// The right side.
    pub rhs: T,
}

impl<T> IsEq<T> {
    /// Pairs the two sides of an equation.
    pub fn equal_under_law(lhs: T, rhs: T) -> (r: Self)
        ensures
            r.lhs == lhs,
            r.rhs == rhs,
    {
        IsEq { lhs, rhs }
    }
}

impl<T: Eq> IsEq<T> {
    /// Compares the two sides with `==`.
    pub fn holds(self) -> (b: bool)
        ensures
            T::obeys_eq_spec() ==> b == self.lhs.eq_spec(&self.rhs),
    {
        self.lhs == self.rhs
    }
}

} // verus!
