//! Functor transformations: functions from one container type to another
//! that keep the type of the items.
use crate::data::ne_vec::NEVec;
use crate::higher::Higher;
use crate::monoid::Monoid;
use crate::pure::Pure;
use core::marker::PhantomData;
use vstd::prelude::*;

verus! {

/// A transformation from the container type `A` to the container type `B`,
/// which hold items of the same type.
pub trait FnK<A, B>: Sized where A: Higher, B: Higher<Param = A::Param> {
    /// Whether the transformation can be applied to `a`.
    spec fn accepts(&self, a: A) -> bool;

    /// `b` is what the transformation may give for `a`.
    spec fn transforms(&self, a: A, b: B) -> bool;

    /// Applies the transformation.
    fn apply(&self, a: A) -> (b: B)
        requires
            self.accepts(a),
        ensures
            self.transforms(a, b),
    ;
}

/// Building transformations from others.
pub trait FnKOps<A, B>: FnK<A, B> where A: Higher, B: Higher<Param = A::Param> {
    /// The transformation that applies `f` and then `self`.
    fn compose<Z, F>(self, f: F) -> (r: Composition<Z, A, B, F, Self>) where
        Z: Higher<Param = A::Param>,
        F: FnK<Z, A>,

        ensures
            r.f == f,
            r.g == self,
    {
        Composition { f, g: self, phantom: PhantomData }
    }

    /// The transformation that applies `self` and then `f`.
    fn and_then<C, F>(self, f: F) -> (r: Composition<A, B, C, Self, F>) where
        C: Higher<Param = A::Param>,
        F: FnK<B, C>,

        ensures
            r.f == self,
            r.g == f,
    {
        Composition { f: self, g: f, phantom: PhantomData }
    }
}

impl<A, B, K> FnKOps<A, B> for K where A: Higher, B: Higher<Param = A::Param>, K: FnK<A, B> {

}

/// The transformation from `A` to `C` that applies `f`, from `A` to `B`, and
/// then `g`, from `B` to `C`.
pub struct Composition<A, B, C, F, G> where
    A: Higher,
    B: Higher<Param = A::Param>,
    C: Higher<Param = A::Param>,
    F: FnK<A, B>,
    G: FnK<B, C>,
 {
    /// The transformation that is applied first.
    pub f: F,
    /// The transformation that is applied to what the first one gives.
    pub g: G,
    /// Marks the three container types.
    pub phantom: PhantomData<(A, B, C)>,
}

impl<A, B, C, F, G> FnK<A, C> for Composition<A, B, C, F, G> where
    A: Higher,
    B: Higher<Param = A::Param>,
    C: Higher<Param = A::Param>,
    F: FnK<A, B>,
    G: FnK<B, C>,
 {
    /// The first transformation accepts `a`, and the second accepts
    /// whatever the first may give.
    open spec fn accepts(&self, a: A) -> bool {
        self.f.accepts(a) && forall|b: B| self.f.transforms(a, b) ==> self.g.accepts(b)
    }

    /// `c` is what the second transformation may give for something that the
    /// first may give for `a`.
    open spec fn transforms(&self, a: A, c: C) -> bool {
        exists|b: B| self.f.transforms(a, b) && self.g.transforms(b, c)
    }

    fn apply(&self, a: A) -> (c: C) {
        let b = self.f.apply(a);
        self.g.apply(b)
    }
}

/// Composition is associative: however three transformations are grouped,
/// the compositions accept the same containers and give the same results.
pub proof fn lemma_composition_associative<A, B, C, D, F, G, H>(
    f: F,
    g: G,
    h: H,
    left: Composition<A, C, D, Composition<A, B, C, F, G>, H>,
    right: Composition<A, B, D, F, Composition<B, C, D, G, H>>,
    a: A,
    d: D,
) where
    A: Higher,
    B: Higher<Param = A::Param>,
    C: Higher<Param = A::Param>,
    D: Higher<Param = A::Param>,
    F: FnK<A, B>,
    G: FnK<B, C>,
    H: FnK<C, D>,

    requires
        left.f.f == f,
        left.f.g == g,
        left.g == h,
        right.f == f,
        right.g.f == g,
        right.g.g == h,
    ensures
        left.transforms(a, d) <==> right.transforms(a, d),
        left.accepts(a) <==> right.accepts(a),
{
    if left.transforms(a, d) {
        let c = choose|c: C| left.f.transforms(a, c) && h.transforms(c, d);
        let b = choose|b: B| f.transforms(a, b) && g.transforms(b, c);
        assert(right.g.transforms(b, d));
    }
    if right.transforms(a, d) {
        let b = choose|b: B| f.transforms(a, b) && right.g.transforms(b, d);
        let c = choose|c: C| g.transforms(b, c) && h.transforms(c, d);
        assert(left.f.transforms(a, c));
    }
    if left.accepts(a) {
        assert(left.f.accepts(a));
        assert forall|b: B| f.transforms(a, b) implies right.g.accepts(b) by {
            assert(g.accepts(b));
            assert forall|c: C| g.transforms(b, c) implies h.accepts(c) by {
                assert(left.f.transforms(a, c));
            }
        }
        assert(right.accepts(a));
    }
    if right.accepts(a) {
        assert forall|b: B| f.transforms(a, b) implies g.accepts(b) by {
            assert(right.g.accepts(b));
        }
        assert(left.f.accepts(a));
        assert forall|c: C| left.f.transforms(a, c) implies h.accepts(c) by {
            let b = choose|b: B| f.transforms(a, b) && g.transforms(b, c);
            assert(right.g.accepts(b));
        }
        assert(left.accepts(a));
    }
}

/// Every function from `A` to `B` is a transformation: it accepts what it
/// requires and gives what it ensures.
impl<A, B, F> FnK<A, B> for F where A: Higher, B: Higher<Param = A::Param>, F: Fn(A) -> B {
    open spec fn accepts(&self, a: A) -> bool {
        self.requires((a,))
    }

    open spec fn transforms(&self, a: A, b: B) -> bool {
        self.ensures((a,), b)
    }

    fn apply(&self, a: A) -> (b: B) {
        self(a)
    }
}

/// From a vector to an `Option`: the first element, or `None` if the vector
/// is empty.
pub struct FirstToOption;

impl<T> FnK<Vec<T>, Option<T>> for FirstToOption {
    open spec fn accepts(&self, a: Vec<T>) -> bool {
        true
    }

    open spec fn transforms(&self, a: Vec<T>, b: Option<T>) -> bool {
        b == if a@.len() > 0 {
            Some(a@[0])
        } else {
            None
        }
    }

    fn apply(&self, a: Vec<T>) -> (b: Option<T>) {
        let mut a = a;
        if a.len() > 0 {
            Some(a.swap_remove(0))
        } else {
            None
        }
    }
}

impl<T> FnK<NEVec<T>, Option<T>> for FirstToOption {
    open spec fn accepts(&self, a: NEVec<T>) -> bool {
        true
    }

    open spec fn transforms(&self, a: NEVec<T>, b: Option<T>) -> bool {
        b == Some(a@[0])
    }

    fn apply(&self, a: NEVec<T>) -> (b: Option<T>) {
        Some(a.head)
    }
}

/// From a vector to an `Option`: the last element, or `None` if the vector
/// is empty.
pub struct LastToOption;

impl<T> FnK<Vec<T>, Option<T>> for LastToOption {
    open spec fn accepts(&self, a: Vec<T>) -> bool {
        true
    }

    open spec fn transforms(&self, a: Vec<T>, b: Option<T>) -> bool {
        b == if a@.len() > 0 {
            Some(a@.last())
        } else {
            None
        }
    }

    fn apply(&self, a: Vec<T>) -> (b: Option<T>) {
        let mut a = a;
        a.pop()
    }
}

impl<T> FnK<NEVec<T>, Option<T>> for LastToOption {
    open spec fn accepts(&self, a: NEVec<T>) -> bool {
        true
    }

    open spec fn transforms(&self, a: NEVec<T>, b: Option<T>) -> bool {
        b == Some(a@.last())
    }

    fn apply(&self, a: NEVec<T>) -> (b: Option<T>) {
        let mut tail = a.tail;
        match tail.pop() {
            Some(x) => Some(x),
            None => Some(a.head),
        }
    }
}

/// From a vector to an `Option`: the element at the given index, or `None`
/// if the vector has none there.
pub struct NthToOption(pub usize);

impl<T> FnK<Vec<T>, Option<T>> for NthToOption {
    open spec fn accepts(&self, a: Vec<T>) -> bool {
        true
    }

    open spec fn transforms(&self, a: Vec<T>, b: Option<T>) -> bool {
        b == if self.0 < a@.len() {
            Some(a@[self.0 as int])
        } else {
            None
        }
    }

    fn apply(&self, a: Vec<T>) -> (b: Option<T>) {
        let mut a = a;
        if self.0 < a.len() {
            Some(a.swap_remove(self.0))
        } else {
            None
        }
    }
}

/// From a vector to a `Result`: the first element, or a clone of the given
/// error if the vector is empty.
pub struct FirstToResult<E>(pub E);

impl<T, E: Clone> FnK<Vec<T>, Result<T, E>> for FirstToResult<E> {
    open spec fn accepts(&self, a: Vec<T>) -> bool {
        true
    }

    open spec fn transforms(&self, a: Vec<T>, b: Result<T, E>) -> bool {
        if a@.len() > 0 {
            b == Ok::<T, E>(a@[0])
        } else {
            b is Err && cloned(self.0, b->Err_0)
        }
    }

    fn apply(&self, a: Vec<T>) -> (b: Result<T, E>) {
        let mut a = a;
        if a.len() > 0 {
            Ok(a.swap_remove(0))
        } else {
            Err(self.0.clone())
        }
    }
}

/// From a vector to a `Result`: the last element, or a clone of the given
/// error if the vector is empty.
pub struct LastToResult<E>(pub E);

impl<T, E: Clone> FnK<Vec<T>, Result<T, E>> for LastToResult<E> {
    open spec fn accepts(&self, a: Vec<T>) -> bool {
        true
    }

    open spec fn transforms(&self, a: Vec<T>, b: Result<T, E>) -> bool {
        if a@.len() > 0 {
            b == Ok::<T, E>(a@.last())
        } else {
            b is Err && cloned(self.0, b->Err_0)
        }
    }

    fn apply(&self, a: Vec<T>) -> (b: Result<T, E>) {
        let mut a = a;
        match a.pop() {
            Some(x) => Ok(x),
            None => Err(self.0.clone()),
        }
    }
}

/// From a vector to a `Result`: the element at the given index, or a clone
/// of the given error if the vector has none there.
pub struct NthToResult<E>(pub usize, pub E);

impl<T, E: Clone> FnK<Vec<T>, Result<T, E>> for NthToResult<E> {
    open spec fn accepts(&self, a: Vec<T>) -> bool {
        true
    }

    open spec fn transforms(&self, a: Vec<T>, b: Result<T, E>) -> bool {
        if self.0 < a@.len() {
            b == Ok::<T, E>(a@[self.0 as int])
        } else {
            b is Err && cloned(self.1, b->Err_0)
        }
    }

    fn apply(&self, a: Vec<T>) -> (b: Result<T, E>) {
        let mut a = a;
        if self.0 < a.len() {
            Ok(a.swap_remove(self.0))
        } else {
            Err(self.1.clone())
        }
    }
}

/// From an `Option` to a vector: one element for `Some`, none for `None`.
pub struct OptionToVec;

impl<T> FnK<Option<T>, Vec<T>> for OptionToVec {
    open spec fn accepts(&self, a: Option<T>) -> bool {
        true
    }

    open spec fn transforms(&self, a: Option<T>, b: Vec<T>) -> bool {
        b@ == a.items()
    }

    fn apply(&self, a: Option<T>) -> (b: Vec<T>) {
        let mut out = Vec::new();
        match a {
            Some(x) => {
                out.push(x);
                assert(out@ =~= a.items());
            },
            None => {},
        }
        out
    }
}

/// From a `Result` to a vector: one element for `Ok`, none for `Err`.
pub struct ResultToVec;

impl<T, E> FnK<Result<T, E>, Vec<T>> for ResultToVec {
    open spec fn accepts(&self, a: Result<T, E>) -> bool {
        true
    }

    open spec fn transforms(&self, a: Result<T, E>, b: Vec<T>) -> bool {
        b@ == a.items()
    }

    fn apply(&self, a: Result<T, E>) -> (b: Vec<T>) {
        let mut out = Vec::new();
        match a {
            Ok(x) => {
                out.push(x);
                assert(out@ =~= a.items());
            },
            Err(_) => {},
        }
        out
    }
}

/// From an `Option` to any container that has `pure` and is a monoid: `pure`
/// of the value for `Some`, the identity element for `None`.
pub struct OptionToF;

impl<T, F> FnK<Option<T>, F> for OptionToF where F: Pure + Higher<Param = T> + Monoid {
    open spec fn accepts(&self, a: Option<T>) -> bool {
        true
    }

    open spec fn transforms(&self, a: Option<T>, b: F) -> bool {
        match a {
            Some(x) => b.shape() == F::pure_shape() && b.items() == seq![x],
            None => b.model() == F::empty_model(),
        }
    }

    fn apply(&self, a: Option<T>) -> (b: F) {
        match a {
            Some(x) => F::pure(x),
            None => F::empty(),
        }
    }
}

} // verus!
