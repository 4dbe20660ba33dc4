//! AndThen: sequencing for containers that may lack a full `flat_map`.
use crate::flatmap::FlatMap;
use crate::functor::callable_on_items;
use crate::higher::{Higher, Retarget, Target};
use core::marker::PhantomData;
use vstd::prelude::*;

verus! {

/// Containers with `and_then`. It has the form of `flat_map` and asks less: a
/// type that is no monad, because its way of pairing containers collects
/// what `flat_map` would stop at, can still offer it.
pub trait AndThen<B>: Retarget<B> {
    /// `r` is what `self` becomes when each of its items is replaced by the
    /// container at the same place in `parts` and the nesting is removed.
    spec fn then_joined(self, parts: Seq<Target<Self, B>>, r: Target<Self, B>) -> bool;

    /// Applies `f` to every item and flattens what comes out.
    fn and_then<F>(self, f: F) -> (r: Target<Self, B>) where
        F: FnMut(Self::Param) -> Target<Self, B>,

        requires
            callable_on_items(self, f),
        ensures
            exists|parts: Seq<Target<Self, B>>|
                {
                    &&& parts.len() == self.items().len()
                    &&& forall|i: int|
                        0 <= i < parts.len() ==> f.ensures((self.items()[i],), #[trigger] parts[i])
                    &&& #[trigger] self.then_joined(parts, r)
                },
    ;
}

impl<A, B> AndThen<B> for PhantomData<A> {
    open spec fn then_joined(self, parts: Seq<PhantomData<B>>, r: PhantomData<B>) -> bool {
        true
    }

    fn and_then<F>(self, f: F) -> (r: PhantomData<B>) where F: FnMut(A) -> PhantomData<B> {
        let r = PhantomData;
        assert(self.then_joined(Seq::<PhantomData<B>>::empty(), r));
        r
    }
}

impl<A, B> AndThen<B> for Option<A> {
    open spec fn then_joined(self, parts: Seq<Option<B>>, r: Option<B>) -> bool {
        self.joined(parts, r)
    }

    fn and_then<F>(self, f: F) -> (r: Option<B>) where F: FnMut(A) -> Option<B> {
        let r = self.flat_map(f);
        proof {
            let parts = choose|parts: Seq<Option<B>>|
                {
                    &&& parts.len() == self.items().len()
                    &&& forall|i: int|
                        0 <= i < parts.len() ==> f.ensures((self.items()[i],), #[trigger] parts[i])
                    &&& #[trigger] self.joined(parts, r)
                };
            assert(self.then_joined(parts, r));
        }
        r
    }
}

impl<A, B, E> AndThen<B> for Result<A, E> {
    open spec fn then_joined(self, parts: Seq<Result<B, E>>, r: Result<B, E>) -> bool {
        self.joined(parts, r)
    }

    fn and_then<F>(self, f: F) -> (r: Result<B, E>) where F: FnMut(A) -> Result<B, E> {
        let r = self.flat_map(f);
        proof {
            let parts = choose|parts: Seq<Result<B, E>>|
                {
                    &&& parts.len() == self.items().len()
                    &&& forall|i: int|
                        0 <= i < parts.len() ==> f.ensures((self.items()[i],), #[trigger] parts[i])
                    &&& #[trigger] self.joined(parts, r)
                };
            assert(self.then_joined(parts, r));
        }
        r
    }
}

impl<A, B> AndThen<B> for Box<A> {
    open spec fn then_joined(self, parts: Seq<Box<B>>, r: Box<B>) -> bool {
        self.joined(parts, r)
    }

    fn and_then<F>(self, f: F) -> (r: Box<B>) where F: FnMut(A) -> Box<B> {
        let r = self.flat_map(f);
        proof {
            let parts = choose|parts: Seq<Box<B>>|
                {
                    &&& parts.len() == self.items().len()
                    &&& forall|i: int|
                        0 <= i < parts.len() ==> f.ensures((self.items()[i],), #[trigger] parts[i])
                    &&& #[trigger] self.joined(parts, r)
                };
            assert(self.then_joined(parts, r));
        }
        r
    }
}

impl<A, B> AndThen<B> for Vec<A> {
    open spec fn then_joined(self, parts: Seq<Vec<B>>, r: Vec<B>) -> bool {
        self.joined(parts, r)
    }

    fn and_then<F>(self, f: F) -> (r: Vec<B>) where F: FnMut(A) -> Vec<B> {
        let r = self.flat_map(f);
        proof {
            let parts = choose|parts: Seq<Vec<B>>|
                {
                    &&& parts.len() == self.items().len()
                    &&& forall|i: int|
                        0 <= i < parts.len() ==> f.ensures((self.items()[i],), #[trigger] parts[i])
                    &&& #[trigger] self.joined(parts, r)
                };
            assert(self.then_joined(parts, r));
        }
        r
    }
}

} // verus!
