//! Contravariant functors: containers transformed against the direction of
//! the function.
use crate::higher::{Higher, Retarget, same, Target};
use core::marker::PhantomData;
use vstd::prelude::*;

verus! {

/// `r` has the shape of `fa`, and `f` may send each of its items onto the
/// item of `fa` at the same place.
pub open spec fn contramapped<FA: Retarget<B>, B, F: FnOnce(B) -> FA::Param>(
    fa: FA,
    f: F,
    r: FA::Target,
) -> bool {
    &&& r.shape() == fa.shape()
    &&& r.items().len() == fa.items().len()
    &&& forall|i: int|
        0 <= i < fa.items().len() ==> f.ensures((#[trigger] r.items()[i],), fa.items()[i])
}

/// Contravariant functor.
pub trait Contravariant<B>: Retarget<B> {
    /// Transforms `F<A>` into `F<B>`, given a function from `B` to `A`.
    fn contramap<F: FnMut(B) -> Self::Param>(self, f: F) -> (r: Self::Target)
        ensures
            contramapped(self, f, r),
    ;
}

impl<A, B> Contravariant<B> for PhantomData<A> {
    fn contramap<F: FnMut(B) -> A>(self, f: F) -> (r: PhantomData<B>) {
        let r = PhantomData;
        assert(r.shape() == self.shape());
        r
    }
}

/// Lifts `f` to a function on contravariant functors: the result
/// contramaps its argument with `f`.
pub fn lift_contravariant<FA, B, F>(f: F) -> (r: impl FnOnce(FA) -> Target<FA, B>) where
    FA: Contravariant<B>,
    F: FnMut(B) -> FA::Param,

    ensures
        forall|fa: FA| #[trigger] r.requires((fa,)),
        forall|fa: FA, out: Target<FA, B>| #[trigger]
            r.ensures((fa,), out) ==> contramapped(fa, f, out),
{
    move |fa: FA| -> (out: Target<FA, B>)
        ensures
            contramapped(fa, f, out)
        { fa.contramap(f) }
}

/// Identity: `contramap` with a function that returns its argument changes
/// nothing.
pub proof fn lemma_contramap_identity<FA, F>(fa: FA, f: F, r: FA) where
    FA: Retarget<<FA as Higher>::Param, Target = FA>,
    F: FnOnce(FA::Param) -> FA::Param,

    requires
        contramapped(fa, f, r),
        forall|a: FA::Param, b: FA::Param| f.ensures((a,), b) ==> b == a,
    ensures
        same(r, fa),
{
    assert forall|i: int| 0 <= i < fa.items().len() implies r.items()[i] == fa.items()[i] by {
        assert(f.ensures((r.items()[i],), fa.items()[i]));
    }
}

/// Composition: what `contramap` with `f` and then with `g` gives is what
/// one `contramap` with `h` may give, where `h` may return `f(g(x))`.
pub proof fn lemma_contramap_composition<FA, B, C, F, G, H>(
    fa: FA,
    f: F,
    fb: Target<FA, B>,
    g: G,
    fc: Target<Target<FA, B>, C>,
    h: H,
) where
    FA: Retarget<B> + Retarget<C>,
    Target<FA, B>: Retarget<C, Target = Target<FA, C>>,
    F: FnOnce(B) -> FA::Param,
    G: FnOnce(C) -> B,
    H: FnOnce(C) -> FA::Param,

    requires
        contramapped(fa, f, fb),
        contramapped(fb, g, fc),
        forall|c: C, b: B, a: FA::Param|
            #[trigger] g.ensures((c,), b) && #[trigger] f.ensures((b,), a) ==> h.ensures((c,), a),
    ensures
        contramapped(fa, h, fc),
{
    assert forall|i: int| 0 <= i < fa.items().len() implies h.ensures(
        (#[trigger] fc.items()[i],),
        fa.items()[i],
    ) by {
        assert(f.ensures((fb.items()[i],), fa.items()[i]));
        assert(g.ensures((fc.items()[i],), fb.items()[i]));
    }
}

/// A container that holds no items has one result under `contramap`,
/// whatever the function: two results of it are the same.
pub proof fn lemma_contramap_unique<FA, B, F, H>(fa: FA, f: F, r1: FA::Target, h: H, r2: FA::Target) where
    FA: Retarget<B>,
    F: FnOnce(B) -> FA::Param,
    H: FnOnce(B) -> FA::Param,

    requires
        fa.items().len() == 0,
        contramapped(fa, f, r1),
        contramapped(fa, h, r2),
    ensures
        same(r1, r2),
{
}

/// Composition for `PhantomData`: `contramap` with `f` and then with `g`
/// gives what one `contramap` with `h` gives, whatever the functions.
pub proof fn lemma_contramap_composition_phantom<A, B, C, F, G, H>(
    fa: PhantomData<A>,
    f: F,
    fb: PhantomData<B>,
    g: G,
    fc: PhantomData<C>,
    h: H,
    r: PhantomData<C>,
) where F: FnOnce(B) -> A, G: FnOnce(C) -> B, H: FnOnce(C) -> A
    requires
        contramapped(fa, f, fb),
        contramapped(fb, g, fc),
        contramapped(fa, h, r),
    ensures
        fc == r,
        same(fc, r),
{
}

} // verus!
