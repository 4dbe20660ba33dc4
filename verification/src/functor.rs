//! Covariant functors: containers whose items can be transformed in place.
use crate::higher::{Higher, Retarget, same, Target};
use crate::invariant_functor::Invariant;
use core::marker::PhantomData;
use vstd::prelude::*;

verus! {

/// `f` may be called on every item of `fa`.
pub open spec fn callable_on_items<FA: Higher, B, F: FnOnce(FA::Param) -> B>(fa: FA, f: F) -> bool {
    forall|i: int| 0 <= i < fa.items().len() ==> f.requires((#[trigger] fa.items()[i],))
}

/// `r` has the shape of `fa`, and each of its items is what a call of `f` on
/// the item of `fa` at the same place may return.
pub open spec fn mapped<FA: Retarget<B>, B, F: FnOnce(FA::Param) -> B>(
    fa: FA,
    f: F,
    r: FA::Target,
) -> bool {
    &&& r.shape() == fa.shape()
    &&& r.items().len() == fa.items().len()
    &&& forall|i: int|
        0 <= i < fa.items().len() ==> f.ensures((fa.items()[i],), #[trigger] r.items()[i])
}

/// Every call of `f` returns what the function `g` gives.
pub open spec fn computes<A, B, F: FnOnce(A) -> B>(f: F, g: spec_fn(A) -> B) -> bool {
    forall|a: A, b: B| f.ensures((a,), b) ==> b == g(a)
}

/// Covariant functor.
pub trait Functor<B>: Invariant<B> {
    /// Transforms `F<A>` into `F<B>` by applying `f` to every item, keeping
    /// the shape.
    fn map<F: FnMut(Self::Param) -> B>(self, f: F) -> (r: Self::Target)
        requires
            callable_on_items(self, f),
        ensures
            mapped(self, f, r),
    ;

    /// [`Functor::map`] under another name, for types that have a `map` of
    /// their own.
    fn fmap<F: FnMut(Self::Param) -> B>(self, f: F) -> (r: Self::Target)
        requires
            callable_on_items(self, f),
        ensures
            mapped(self, f, r),
    {
        self.map(f)
    }
}

/// Lifts `f` to a function on functors: the result maps its argument
/// with `f`.
pub fn lift<FA, B, F>(f: F) -> (r: impl Fn(FA) -> Target<FA, B>) where
    FA: Functor<B>,
    F: Fn(FA::Param) -> B,

    ensures
        forall|fa: FA| callable_on_items(fa, f) ==> #[trigger] r.requires((fa,)),
        forall|fa: FA, out: Target<FA, B>| #[trigger]
            r.ensures((fa,), out) ==> mapped(fa, f, out),
{
    move |fa: FA| -> (out: Target<FA, B>)
        requires
            callable_on_items(fa, f),
        ensures
            mapped(fa, f, out)
        {
            fa.map(
                |a: FA::Param| -> (b: B)
                    requires
                        f.requires((a,)),
                    ensures
                        f.ensures((a,), b)
                    { f(a) },
            )
        }
}

/// The operations that every functor has besides `map`, each defined by one
/// call of [`Functor::map`]. `B` is the type that the operation brings in.
pub trait FunctorOps<B>: Higher {
    /// Pairs every item with what `f` returns for it, the item first.
    fn fproduct<F>(self, f: F) -> (r: Target<Self, (Self::Param, B)>) where
        F: Fn(&Self::Param) -> B,
        Self: Functor<(<Self as Higher>::Param, B)>,

        requires
            forall|i: int|
                0 <= i < self.items().len() ==> f.requires((&#[trigger] self.items()[i],)),
        ensures
            r.shape() == self.shape(),
            r.items().len() == self.items().len(),
            forall|i: int|
                0 <= i < self.items().len() ==> (#[trigger] r.items()[i]).0 == self.items()[i]
                    && f.ensures((&self.items()[i],), r.items()[i].1),
    {
        self.map(
            |a: Self::Param| -> (p: (Self::Param, B))
                requires
                    f.requires((&a,)),
                ensures
                    p.0 == a,
                    f.ensures((&a,), p.1)
                {
                    let rhs = f(&a);
                    (a, rhs)
                },
        )
    }

    /// Pairs every item with what `f` returns for it, the item second.
    fn fproduct_left<F>(self, f: F) -> (r: Target<Self, (B, Self::Param)>) where
        F: Fn(&Self::Param) -> B,
        Self: Functor<(B, <Self as Higher>::Param)>,

        requires
            forall|i: int|
                0 <= i < self.items().len() ==> f.requires((&#[trigger] self.items()[i],)),
        ensures
            r.shape() == self.shape(),
            r.items().len() == self.items().len(),
            forall|i: int|
                0 <= i < self.items().len() ==> (#[trigger] r.items()[i]).1 == self.items()[i]
                    && f.ensures((&self.items()[i],), r.items()[i].0),
    {
        self.map(
            |a: Self::Param| -> (p: (B, Self::Param))
                requires
                    f.requires((&a,)),
                ensures
                    p.1 == a,
                    f.ensures((&a,), p.0)
                {
                    let lhs = f(&a);
                    (lhs, a)
                },
        )
    }

    /// Replaces every item by `b`.
    fn map_const(self, b: B) -> (r: Target<Self, B>) where
        B: Copy,
        Self: Functor<B>,

        ensures
            r.shape() == self.shape(),
            r.items().len() == self.items().len(),
            forall|i: int| 0 <= i < self.items().len() ==> #[trigger] r.items()[i] == b,
    {
        self.map(
            |a: Self::Param| -> (x: B)
                ensures
                    x == b
                { b },
        )
    }

    /// Pairs every item with `b`, `b` first.
    fn tuple_left(self, b: B) -> (r: Target<Self, (B, Self::Param)>) where
        B: Copy,
        Self: Functor<(B, <Self as Higher>::Param)>,

        ensures
            r.shape() == self.shape(),
            r.items().len() == self.items().len(),
            forall|i: int|
                0 <= i < self.items().len() ==> #[trigger] r.items()[i] == (b, self.items()[i]),
    {
        self.map(
            |a: Self::Param| -> (p: (B, Self::Param))
                ensures
                    p == (b, a)
                { (b, a) },
        )
    }

    /// Pairs every item with `b`, `b` second.
    fn tuple_right(self, b: B) -> (r: Target<Self, (Self::Param, B)>) where
        B: Copy,
        Self: Functor<(<Self as Higher>::Param, B)>,

        ensures
            r.shape() == self.shape(),
            r.items().len() == self.items().len(),
            forall|i: int|
                0 <= i < self.items().len() ==> #[trigger] r.items()[i] == (self.items()[i], b),
    {
        self.map(
            |a: Self::Param| -> (p: (Self::Param, B))
                ensures
                    p == (a, b)
                { (a, b) },
        )
    }

    /// Splits a container of pairs into the container of the first parts and
    /// the container of the second parts.
    fn unzip<A>(self) -> (r: (Target<Self, A>, Target<Self, B>)) where
        Self: Higher<Param = (A, B)> + Functor<A> + Functor<B> + Copy,

        ensures
            r.0.shape() == self.shape(),
            r.1.shape() == self.shape(),
            r.0.items().len() == self.items().len(),
            r.1.items().len() == self.items().len(),
            forall|i: int|
                0 <= i < self.items().len() ==> #[trigger] r.0.items()[i] == self.items()[i].0,
            forall|i: int|
                0 <= i < self.items().len() ==> #[trigger] r.1.items()[i] == self.items()[i].1,
    {
        let left = <Self as Functor<A>>::map(
            self,
            |x: (A, B)| -> (a: A)
                ensures
                    a == x.0
                { x.0 },
        );
        let right = <Self as Functor<B>>::map(
            self,
            |x: (A, B)| -> (b: B)
                ensures
                    b == x.1
                { x.1 },
        );
        (left, right)
    }

    /// `if` lifted into the functor: every `true` becomes what `if_true`
    /// returns, every `false` what `if_false` returns.
    fn if_f<T, F>(self, if_true: T, if_false: F) -> (r: Target<Self, B>) where
        T: Fn() -> B,
        F: Fn() -> B,
        Self: Functor<B> + Higher<Param = bool>,

        requires
            forall|i: int|
                0 <= i < self.items().len() && #[trigger] self.items()[i] ==> if_true.requires(()),
            forall|i: int|
                0 <= i < self.items().len() && !#[trigger] self.items()[i] ==> if_false.requires(()),
        ensures
            r.shape() == self.shape(),
            r.items().len() == self.items().len(),
            forall|i: int|
                0 <= i < self.items().len() ==> if self.items()[i] {
                    if_true.ensures((), #[trigger] r.items()[i])
                } else {
                    if_false.ensures((), r.items()[i])
                },
    {
        self.map(
            |x: bool| -> (b: B)
                requires
                    x ==> if_true.requires(()),
                    !x ==> if_false.requires(()),
                ensures
                    x ==> if_true.ensures((), b),
                    !x ==> if_false.ensures((), b)
                {
                    if x {
                        if_true()
                    } else {
                        if_false()
                    }
                },
        )
    }
}

impl<FA: Higher, B> FunctorOps<B> for FA {

}

/// Forgetting the values of a functor.
pub trait FunctorVoid: Higher {
    /// Empties the container of its values, keeping the shape: every item
    /// becomes `()`.
    fn void(self) -> (r: Target<Self, ()>) where Self: Functor<()>
        ensures
            r.shape() == self.shape(),
            r.items().len() == self.items().len(),
    {
        self.map(|a: Self::Param| -> (x: ()) { () })
    }
}

impl<FA: Higher> FunctorVoid for FA {

}

impl<A, B> Functor<B> for Option<A> {
    fn map<F: FnMut(A) -> B>(self, mut f: F) -> (r: Option<B>) {
        match self {
            Some(a) => {
                assert(self.items()[0] == a);
                let b = f(a);
                let r = Some(b);
                assert(r.items()[0] == b);
                r
            },
            None => None,
        }
    }
}

impl<A, B, E> Functor<B> for Result<A, E> {
    fn map<F: FnMut(A) -> B>(self, mut f: F) -> (r: Result<B, E>) {
        match self {
            Ok(a) => {
                assert(self.items()[0] == a);
                let b = f(a);
                let r = Ok(b);
                assert(r.items()[0] == b);
                r
            },
            Err(e) => Err(e),
        }
    }
}

impl<A, B> Functor<B> for Box<A> {
    fn map<F: FnMut(A) -> B>(self, mut f: F) -> (r: Box<B>) {
        assert(self.items()[0] == *self);
        let b = f(*self);
        let r = Box::new(b);
        assert(r.items()[0] == b);
        r
    }
}

impl<A, B> Functor<B> for Vec<A> {
    fn map<F: FnMut(A) -> B>(self, mut f: F) -> (r: Vec<B>) {
        let mut out: Vec<B> = Vec::new();
        let ghost src = self.items();
        let ghost f0 = f;
        for a in it: self.into_iter()
            invariant
                it.seq() == src,
                f == f0,
                out@.len() == it.index(),
                forall|k: int| 0 <= k < src.len() ==> f.requires((#[trigger] src[k],)),
                forall|k: int| 0 <= k < it.index() ==> f.ensures((src[k],), #[trigger] out@[k]),
        {
            let b = f(a);
            out.push(b);
        }
        assert(out.items() == out@);
        out
    }
}

impl<A, B> Functor<B> for PhantomData<A> {
    fn map<F: FnMut(A) -> B>(self, f: F) -> (r: PhantomData<B>) {
        let r = PhantomData;
        assert(r.shape() == self.shape());
        r
    }
}

/// Identity: mapping with a function that returns its argument changes
/// nothing.
pub proof fn lemma_map_identity<FA, F>(fa: FA, f: F, r: FA)
    where
        FA: Retarget<<FA as Higher>::Param, Target = FA>,
        F: FnOnce(FA::Param) -> FA::Param,
    requires
        mapped(fa, f, r),
        computes(f, |a: FA::Param| a),
    ensures
        same(r, fa),
{
    assert forall|i: int| 0 <= i < fa.items().len() implies r.items()[i] == fa.items()[i] by {
        assert(f.ensures((fa.items()[i],), r.items()[i]));
    }
}

/// Composition: mapping with `f` and then with `g` gives what mapping once
/// with `h` gives, where `h` returns `g(f(x))`.
pub proof fn lemma_map_composition<FA, B, C, F, G, H>(
    fa: FA,
    f: F,
    sf: spec_fn(FA::Param) -> B,
    fb: Target<FA, B>,
    g: G,
    sg: spec_fn(B) -> C,
    fc: Target<Target<FA, B>, C>,
    h: H,
    r: Target<FA, C>,
)
    where
        FA: Retarget<B> + Retarget<C>,
        Target<FA, B>: Retarget<C, Target = Target<FA, C>>,
        F: FnOnce(FA::Param) -> B,
        G: FnOnce(B) -> C,
        H: FnOnce(FA::Param) -> C,
    requires
        mapped(fa, f, fb),
        computes(f, sf),
        mapped(fb, g, fc),
        computes(g, sg),
        mapped(fa, h, r),
        computes(h, |a: FA::Param| sg(sf(a))),
    ensures
        same(fc, r),
{
    assert forall|i: int| 0 <= i < fa.items().len() implies fc.items()[i] == r.items()[i] by {
        assert(f.ensures((fa.items()[i],), fb.items()[i]));
        assert(g.ensures((fb.items()[i],), fc.items()[i]));
        assert(h.ensures((fa.items()[i],), r.items()[i]));
    }
}

} // verus!
