//! Lifting a plain value into a container.
use crate::higher::Higher;
use vstd::prelude::*;

verus! {

/// Containers that can be made from one value.
pub trait Pure: Higher {
    /// The shape of every container that `pure` makes.
    spec fn pure_shape() -> Self::Shape;

    /// Lifts a value into a container that holds it and nothing else.
    fn pure(x: Self::Param) -> (r: Self)
        ensures
            r.shape() == Self::pure_shape(),
            r.items() == seq![x],
    ;

    /// Lifts `()` into a container: `pure(())`.
    fn unit() -> (r: Self) where Self: Higher<Param = ()>
        ensures
            r.shape() == Self::pure_shape(),
            r.items() == seq![()],
    {
        Self::pure(())
    }
}

impl<A> Pure for Option<A> {
    open spec fn pure_shape() -> bool {
        true
    }

    fn pure(x: A) -> (r: Option<A>) {
        let r = Some(x);
        assert(r.items() =~= seq![x]);
        r
    }
}

impl<A, E> Pure for Result<A, E> {
    open spec fn pure_shape() -> Option<E> {
        None
    }

    fn pure(x: A) -> (r: Result<A, E>) {
        let r = Ok(x);
        assert(r.items() =~= seq![x]);
        r
    }
}

impl<A> Pure for Box<A> {
    open spec fn pure_shape() -> () {
        ()
    }

    fn pure(x: A) -> (r: Box<A>) {
        let r = Box::new(x);
        assert(r.items() =~= seq![x]);
        assert(r.shape() == ());
        r
    }
}

impl<A> Pure for Vec<A> {
    open spec fn pure_shape() -> nat {
        1
    }

    fn pure(x: A) -> (r: Vec<A>) {
        let mut r = Vec::new();
        r.push(x);
        assert(r.items() =~= seq![x]);
        r
    }
}

} // verus!
