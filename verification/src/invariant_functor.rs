//! Invariant functors: containers transformed by a pair of functions, one in
//! each direction.
use crate::functor::{callable_on_items, computes, lemma_map_composition, lemma_map_identity, mapped};
use crate::higher::{Higher, Retarget, same, Target};
use core::marker::PhantomData;
use vstd::prelude::*;

verus! {

/// `r` is what `fa` becomes under the pair `f`, `g`. The items of a container
/// travel along `f`, so `g` does not constrain them.
pub open spec fn imapped<FA, B, F, G>(fa: FA, f: F, g: G, r: FA::Target) -> bool where
    FA: Retarget<B>,
    F: FnOnce(FA::Param) -> B,
    G: FnOnce(B) -> FA::Param,
 {
    mapped(fa, f, r)
}

/// Invariant functor, also known as exponential functor.
pub trait Invariant<B>: Retarget<B> {
    /// Transforms `F<A>` into `F<B>`, given a function from `A` to `B` and
    /// one from `B` to `A`.
    fn imap<F, G>(self, f: F, g: G) -> (r: Self::Target) where
        F: FnMut(Self::Param) -> B,
        G: FnMut(B) -> Self::Param,

        requires
            callable_on_items(self, f),
        ensures
            imapped(self, f, g, r),
    ;
}

impl<A, B> Invariant<B> for Option<A> {
    fn imap<F, G>(self, mut f: F, g: G) -> (r: Option<B>) where
        F: FnMut(A) -> B,
        G: FnMut(B) -> A,
     {
        match self {
            Some(a) => {
                assert(self.items()[0] == a);
                let b = f(a);
                let r = Some(b);
                assert(r.items()[0] == b);
                r
            },
            None => None,
        }
    }
}

impl<A, B, E> Invariant<B> for Result<A, E> {
    fn imap<F, G>(self, mut f: F, g: G) -> (r: Result<B, E>) where
        F: FnMut(A) -> B,
        G: FnMut(B) -> A,
     {
        match self {
            Ok(a) => {
                assert(self.items()[0] == a);
                let b = f(a);
                let r = Ok(b);
                assert(r.items()[0] == b);
                r
            },
            Err(e) => Err(e),
        }
    }
}

impl<A, B> Invariant<B> for Box<A> {
    fn imap<F, G>(self, mut f: F, g: G) -> (r: Box<B>) where
        F: FnMut(A) -> B,
        G: FnMut(B) -> A,
     {
        assert(self.items()[0] == *self);
        let b = f(*self);
        let r = Box::new(b);
        assert(r.items()[0] == b);
        r
    }
}

impl<A, B> Invariant<B> for Vec<A> {
    fn imap<F, G>(self, mut f: F, g: G) -> (r: Vec<B>) where
        F: FnMut(A) -> B,
        G: FnMut(B) -> A,
     {
        let mut out: Vec<B> = Vec::new();
        let ghost src = self.items();
        let ghost f0 = f;
        for a in it: self.into_iter()
            invariant
                it.seq() == src,
                f == f0,
                out@.len() == it.index(),
                forall|k: int| 0 <= k < src.len() ==> f.requires((#[trigger] src[k],)),
                forall|k: int| 0 <= k < it.index() ==> f.ensures((src[k],), #[trigger] out@[k]),
        {
            let b = f(a);
            out.push(b);
        }
        assert(out.items() == out@);
        out
    }
}

impl<A, B> Invariant<B> for PhantomData<A> {
    fn imap<F, G>(self, f: F, g: G) -> (r: PhantomData<B>) where
        F: FnMut(A) -> B,
        G: FnMut(B) -> A,
     {
        let r = PhantomData;
        assert(r.shape() == self.shape());
        r
    }
}

/// Identity: `imap` with two functions that return their argument changes
/// nothing.
pub proof fn lemma_imap_identity<FA, F, G>(fa: FA, f: F, g: G, r: FA) where
    FA: Retarget<<FA as Higher>::Param, Target = FA>,
    F: FnOnce(FA::Param) -> FA::Param,
    G: FnOnce(FA::Param) -> FA::Param,

    requires
        imapped(fa, f, g, r),
        computes(f, |a: FA::Param| a),
        computes(g, |a: FA::Param| a),
    ensures
        same(r, fa),
{
    lemma_map_identity(fa, f, r);
}

/// Composition: `imap` with `(f1, f2)` and then with `(g1, g2)` gives what
/// one `imap` gives with `(h1, h2)`, where `h1` returns `g1(f1(x))` and `h2`
/// returns `f2(g2(x))`.
pub proof fn lemma_imap_composition<FA, B, C, F1, F2, G1, G2, H1, H2>(
    fa: FA,
    f1: F1,
    f2: F2,
    sf1: spec_fn(FA::Param) -> B,
    sf2: spec_fn(B) -> FA::Param,
    fb: Target<FA, B>,
    g1: G1,
    g2: G2,
    sg1: spec_fn(B) -> C,
    sg2: spec_fn(C) -> B,
    fc: Target<Target<FA, B>, C>,
    h1: H1,
    h2: H2,
    r: Target<FA, C>,
) where
    FA: Retarget<B> + Retarget<C>,
    Target<FA, B>: Retarget<C, Target = Target<FA, C>>,
    F1: FnOnce(FA::Param) -> B,
    F2: FnOnce(B) -> FA::Param,
    G1: FnOnce(B) -> C,
    G2: FnOnce(C) -> B,
    H1: FnOnce(FA::Param) -> C,
    H2: FnOnce(C) -> FA::Param,

    requires
        imapped(fa, f1, f2, fb),
        computes(f1, sf1),
        computes(f2, sf2),
        imapped(fb, g1, g2, fc),
        computes(g1, sg1),
        computes(g2, sg2),
        imapped(fa, h1, h2, r),
        computes(h1, |a: FA::Param| sg1(sf1(a))),
        computes(h2, |c: C| sf2(sg2(c))),
    ensures
        same(fc, r),
{
    lemma_map_composition(fa, f1, sf1, fb, g1, sg1, fc, h1, r);
}

} // verus!
